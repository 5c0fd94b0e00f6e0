//! The bridge that supervises one audio session: it forwards controller
//! commands to the worker, relays worker status back, and drives the shutdown
//! handshake as a four-state machine. The thread spawning, channel selects
//! and the join itself happen in the surrounding runtime; every transition it
//! takes is a call into this module, so the state machine — which state
//! follows which observation, and what must be emitted or forwarded — is what
//! is verified here.

use vstd::prelude::*;

verus! {

/// A command for the audio-interface worker.
#[derive(Clone, Copy, Debug, PartialEq, Eq, Structural)]
pub enum AudioInterfaceInput {
    /// Reserved and unimplemented: requesting it is a fatal path, never a
    /// silent no-op.
    SetBufferSize(usize),
    /// Start the hardware stream (it resumes consuming queued frames).
    Play,
    /// Pause the hardware stream (it stops consuming queued frames).
    Pause,
    /// Tear the session down.
    Quit,
}

/// A status event surfaced to the controller. The live session pairs these
/// with its handles (the command sender, the shared queue); the bridge's
/// decisions depend only on what is carried here.
#[derive(Clone, Copy, Debug, PartialEq, Eq, Structural)]
pub enum AudioInterfaceEvent {
    /// The session is wired up and a control handle is available.
    Ready,
    /// A new stream exists with this sample rate, and a queue handle is
    /// available.
    Reset(usize),
    /// The stream consumed a buffer and could take this many frames.
    NeedsAudio(usize),
    /// The worker is gone; the session is over.
    Quit,
}

/// Where the bridge stands in a session's life.
#[derive(Clone, Copy, Debug, PartialEq, Eq, Structural)]
pub enum BridgeState {
    /// Nothing exists yet: the worker thread and channels are still to be
    /// created.
    Start,
    /// The session is live: commands flow down, events flow up.
    Ready,
    /// The worker announced its end; its thread still has to be joined.
    Ending,
    /// Terminal: the worker is joined, and no further event ever comes.
    Idle,
}

/// What the bridge observes: one occurrence from whichever source its
/// runtime loop is waiting on.
#[derive(Clone, Copy, Debug, PartialEq, Eq, Structural)]
pub enum BridgeObservation {
    /// The worker thread and all channels have been created.
    Wired,
    /// The controller sent a command.
    ControllerInput(AudioInterfaceInput),
    /// The worker emitted a status event.
    WorkerEvent(AudioInterfaceEvent),
    /// The worker thread has been joined.
    WorkerJoined,
}

/// What the bridge's runtime loop owes after a transition.
#[derive(Clone, Copy, Debug, PartialEq, Eq, Structural)]
pub enum BridgeDirective {
    /// Tell the controller the session is ready, handing it the control
    /// handle.
    EmitReady,
    /// Pass this command, verbatim, to the worker.
    Forward(AudioInterfaceInput),
    /// Pass this event to the controller.
    Relay(AudioInterfaceEvent),
    /// Nothing: either teardown is in progress or the observation does not
    /// belong to the current state.
    NoAction,
}

/// The bridge's transition table. In `Start`, completed wiring makes the
/// session ready and announces it. In `Ready`, controller commands are
/// forwarded verbatim and worker events are relayed — except the worker's
/// `Quit`, which is relayed and moves the bridge into `Ending`. In `Ending`,
/// the join moves it into `Idle` and emits nothing, so the session only
/// counts as over once the thread is gone. `Idle` is terminal: every
/// observation leaves it in `Idle` and emits nothing.
pub open spec fn spec_bridge_transition(state: BridgeState, obs: BridgeObservation) -> (
    BridgeState,
    BridgeDirective,
) {
    match (state, obs) {
        (BridgeState::Start, BridgeObservation::Wired) => (
            BridgeState::Ready,
            BridgeDirective::EmitReady,
        ),
        (BridgeState::Ready, BridgeObservation::ControllerInput(input)) => (
            BridgeState::Ready,
            BridgeDirective::Forward(input),
        ),
        (BridgeState::Ready, BridgeObservation::WorkerEvent(event)) => {
            if event == AudioInterfaceEvent::Quit {
                (BridgeState::Ending, BridgeDirective::Relay(AudioInterfaceEvent::Quit))
            } else {
                (BridgeState::Ready, BridgeDirective::Relay(event))
            }
        },
        (BridgeState::Ending, BridgeObservation::WorkerJoined) => (
            BridgeState::Idle,
            BridgeDirective::NoAction,
        ),
        _ => (state, BridgeDirective::NoAction),
    }
}

/// The bridge for one audio session, as far as its decisions go.
pub struct AudioInterfaceSubscription {
    pub state: BridgeState,
}

impl AudioInterfaceSubscription {
    /// A bridge for a fresh session, with nothing wired up yet.
    pub fn new() -> (bridge: Self)
        ensures
            bridge.state == BridgeState::Start,
    {
        AudioInterfaceSubscription { state: BridgeState::Start }
    }

    /// Takes one observation, moves to the next state, and returns what the
    /// runtime loop must do — exactly as the transition table says.
    pub fn advance(&mut self, obs: BridgeObservation) -> (directive: BridgeDirective)
        ensures
            (final(self).state, directive) == spec_bridge_transition(old(self).state, obs),
    {
        match (self.state, obs) {
            (BridgeState::Start, BridgeObservation::Wired) => {
                self.state = BridgeState::Ready;
                BridgeDirective::EmitReady
            },
            (BridgeState::Ready, BridgeObservation::ControllerInput(input)) => {
                BridgeDirective::Forward(input)
            },
            (BridgeState::Ready, BridgeObservation::WorkerEvent(event)) => {
                if event == AudioInterfaceEvent::Quit {
                    self.state = BridgeState::Ending;
                    BridgeDirective::Relay(AudioInterfaceEvent::Quit)
                } else {
                    BridgeDirective::Relay(event)
                }
            },
            (BridgeState::Ending, BridgeObservation::WorkerJoined) => {
                self.state = BridgeState::Idle;
                BridgeDirective::NoAction
            },
            _ => BridgeDirective::NoAction,
        }
    }

    /// Returns where the bridge stands.
    pub fn state(&self) -> (state: BridgeState)
        ensures
            state == self.state,
    {
        self.state
    }
}

/// `Idle` is terminal: no observation leaves it, and nothing is ever emitted
/// or forwarded from it — a finished session produces no further events.
pub proof fn lemma_idle_is_terminal(obs: BridgeObservation)
    ensures
        spec_bridge_transition(BridgeState::Idle, obs) == (
            BridgeState::Idle,
            BridgeDirective::NoAction,
        ),
{
}

/// The session only ends through the full handshake: `Ending` is entered
/// only from `Ready` on the worker's `Quit` — which is also relayed to the
/// controller — and `Idle` is entered only from `Ending` by the join. In
/// particular the bridge never reports a session over before the worker
/// thread has been joined.
pub proof fn lemma_shutdown_handshake(state: BridgeState, obs: BridgeObservation)
    ensures
        spec_bridge_transition(state, obs).0 == BridgeState::Ending ==> state == BridgeState::Ending
            || (state == BridgeState::Ready && obs == BridgeObservation::WorkerEvent(
            AudioInterfaceEvent::Quit,
        ) && spec_bridge_transition(state, obs).1 == BridgeDirective::Relay(
            AudioInterfaceEvent::Quit,
        )),
        spec_bridge_transition(state, obs).0 == BridgeState::Idle ==> state == BridgeState::Idle
            || (state == BridgeState::Ending && obs == BridgeObservation::WorkerJoined),
{
}

/// While the session is live, commands pass through unaltered: in `Ready`,
/// every controller input is forwarded verbatim to the worker and the bridge
/// stays in `Ready`.
pub proof fn lemma_forwarding_is_verbatim(input: AudioInterfaceInput)
    ensures
        spec_bridge_transition(BridgeState::Ready, BridgeObservation::ControllerInput(input)) == (
            BridgeState::Ready,
            BridgeDirective::Forward(input),
        ),
{
}

} // verus!
