//! The handshake state machine that both roles share.
//!
//! A handshake that has not finished is a value: it holds the transport and
//! is handed back to the caller, who resumes it once the transport is ready.
//! The machine never blocks and never retries. Dropping the value abandons
//! the handshake.

use crate::engine::StepOutcome;
use crate::error::{Error, ErrorKind, NativeError};
use crate::stream::{Role, TlsStream};
use vstd::prelude::*;
use vstd::std_specs::convert::FromSpecImpl;

verus! {

/// The states of a handshake.
#[derive(Clone, Copy, Debug, PartialEq, Eq, Structural)]
pub enum HandshakeState {
    /// No step was taken yet.
    NotStarted,
    /// A step was taken and the engine waits for the transport.
    InProgress,
    /// The channel is ready.
    Complete,
    /// The handshake failed for good.
    Failed,
}

impl HandshakeState {
    /// Whether the handshake can take no further step.
    pub open spec fn is_terminal(self) -> bool {
        self is Complete || self is Failed
    }

    /// The state after the engine reported `outcome` for a step taken in this
    /// state. A finished handshake takes no step and stays as it is.
    pub open spec fn after(self, outcome: StepOutcome) -> HandshakeState {
        if self.is_terminal() {
            self
        } else {
            match outcome {
                StepOutcome::Complete => HandshakeState::Complete,
                StepOutcome::WouldBlock => HandshakeState::InProgress,
                StepOutcome::Rejected(_) => HandshakeState::Failed,
                StepOutcome::Failure(_) => HandshakeState::Failed,
            }
        }
    }

    /// The state after a run of steps, first to last.
    pub open spec fn after_all(self, outcomes: Seq<StepOutcome>) -> HandshakeState
        decreases outcomes.len(),
    {
        if outcomes.len() == 0 {
            self
        } else {
            self.after_all(outcomes.drop_last()).after(outcomes.last())
        }
    }
}

/// A handshake that was suspended, together with its transport `S`.
#[derive(Debug)]
pub struct MidHandshakeTlsStream<S> {
    stream: S,
    role: Role,
}

/// Why a handshake did not yield a session.
#[derive(Debug)]
pub enum HandshakeError<S> {
    /// The handshake failed for good.
    Failure(Error),
    /// The handshake was suspended and can be resumed.
    WouldBlock(MidHandshakeTlsStream<S>),
}

/// The state that the result of a step stands for.
pub open spec fn state_of<S>(result: Result<TlsStream<S>, HandshakeError<S>>) -> HandshakeState {
    match result {
        Ok(_) => HandshakeState::Complete,
        Err(HandshakeError::WouldBlock(_)) => HandshakeState::InProgress,
        Err(HandshakeError::Failure(_)) => HandshakeState::Failed,
    }
}

/// Whether `result` is what a step with `outcome` makes of a handshake of side
/// `role` over `stream`: the session on completion, the resumable handshake
/// with the same transport on suspension, the policy's verdict on rejection,
/// the engine's error on failure.
pub open spec fn stepped<S>(
    stream: S,
    role: Role,
    outcome: StepOutcome,
    result: Result<TlsStream<S>, HandshakeError<S>>,
) -> bool {
    match outcome {
        StepOutcome::Complete => result matches Ok(session) && session.transport() == stream
            && session.role() == role,
        StepOutcome::WouldBlock => result matches Err(HandshakeError::WouldBlock(suspended))
            && suspended.transport() == stream && suspended.role() == role,
        StepOutcome::Rejected(rejection) => result matches Err(HandshakeError::Failure(error))
            && error == rejection,
        StepOutcome::Failure(e) => result matches Err(HandshakeError::Failure(error)) && error
            == Error(ErrorKind::Native(e)),
    }
}

/// Takes the outcome of a handshake step and says what becomes of the
/// handshake.
pub fn drive<S>(stream: S, role: Role, outcome: StepOutcome) -> (result: Result<
    TlsStream<S>,
    HandshakeError<S>,
>)
    ensures
        stepped(stream, role, outcome, result),
        state_of(result) == HandshakeState::NotStarted.after(outcome),
{
    match outcome {
        StepOutcome::Complete => Ok(TlsStream::new(stream, role)),
        StepOutcome::WouldBlock => Err(
            HandshakeError::WouldBlock(MidHandshakeTlsStream { stream, role }),
        ),
        StepOutcome::Rejected(rejection) => Err(HandshakeError::Failure(rejection)),
        StepOutcome::Failure(e) => Err(HandshakeError::Failure(Error(ErrorKind::Native(e)))),
    }
}

impl<S> MidHandshakeTlsStream<S> {
    /// The transport that the handshake owns.
    pub closed spec fn transport(&self) -> S {
        self.stream
    }

    /// The side of the session that is being set up.
    pub closed spec fn role(&self) -> Role {
        self.role
    }

    /// Returns a shared reference to the transport.
    pub fn get_ref(&self) -> (transport: &S)
        ensures
            *transport == self.transport(),
    {
        &self.stream
    }

    /// Returns a mutable reference to the transport. Whatever the caller does
    /// to the transport, the handshake stays the side it is.
    pub fn get_mut(&mut self) -> (transport: &mut S)
        ensures
            *transport == old(self).transport(),
            final(self).transport() == *final(transport),
            final(self).role() == old(self).role(),
    {
        &mut self.stream
    }

    /// Resumes the handshake; `outcome` is what the engine reported for the
    /// next step.
    ///
    /// The transport stays with the result, under the session or under the
    /// handshake suspended again.
    pub fn handshake(self, outcome: StepOutcome) -> (result: Result<
        TlsStream<S>,
        HandshakeError<S>,
    >)
        ensures
            stepped(self.transport(), self.role(), outcome, result),
            state_of(result) == HandshakeState::InProgress.after(outcome),
    {
        drive(self.stream, self.role, outcome)
    }
}

impl<S> From<NativeError> for HandshakeError<S> {
    fn from(error: NativeError) -> (failure: HandshakeError<S>) {
        HandshakeError::Failure(Error(ErrorKind::Native(error)))
    }
}

impl<S> FromSpecImpl<NativeError> for HandshakeError<S> {
    open spec fn obeys_from_spec() -> bool {
        true
    }

    open spec fn from_spec(error: NativeError) -> HandshakeError<S> {
        HandshakeError::Failure(Error(ErrorKind::Native(error)))
    }
}

/// The result of a step stands for the state that the machine reaches from
/// any state in which a step can be taken.
pub proof fn lemma_result_tracks_state<S>(
    state: HandshakeState,
    stream: S,
    role: Role,
    outcome: StepOutcome,
    result: Result<TlsStream<S>, HandshakeError<S>>,
)
    requires
        !state.is_terminal(),
        stepped(stream, role, outcome, result),
    ensures
        state_of(result) == state.after(outcome),
{
}

/// No step leads back to the start: after any step the handshake is in
/// progress, complete or failed.
pub proof fn lemma_never_restarts(state: HandshakeState, outcome: StepOutcome)
    ensures
        !(state.after(outcome) is NotStarted),
{
}

/// A handshake that has left the start never returns to it, however many
/// steps follow; nor does one that takes at least one step.
pub proof fn lemma_started_stays_started(state: HandshakeState, outcomes: Seq<StepOutcome>)
    requires
        !(state is NotStarted) || outcomes.len() > 0,
    ensures
        !(state.after_all(outcomes) is NotStarted),
    decreases outcomes.len(),
{
    if outcomes.len() > 0 && !(state is NotStarted) {
        lemma_started_stays_started(state, outcomes.drop_last());
    }
}

/// A finished handshake stays as it is: complete stays complete and failed
/// stays failed, whatever is reported afterwards.
pub proof fn lemma_terminal_is_final(state: HandshakeState, outcomes: Seq<StepOutcome>)
    requires
        state.is_terminal(),
    ensures
        state.after_all(outcomes) == state,
    decreases outcomes.len(),
{
    if outcomes.len() > 0 {
        lemma_terminal_is_final(state, outcomes.drop_last());
    }
}

/// As long as every step reports that it would block, a handshake that was
/// started stays in progress.
pub proof fn lemma_would_block_stays_in_progress(
    state: HandshakeState,
    outcomes: Seq<StepOutcome>,
)
    requires
        state is InProgress || (state is NotStarted && outcomes.len() > 0),
        forall|i: int| 0 <= i < outcomes.len() ==> #[trigger] outcomes[i] is WouldBlock,
    ensures
        state.after_all(outcomes) is InProgress,
    decreases outcomes.len(),
{
    if outcomes.len() > 1 || (outcomes.len() == 1 && state is InProgress) {
        let init = outcomes.drop_last();
        assert forall|i: int| 0 <= i < init.len() implies #[trigger] init[i] is WouldBlock by {
            assert(init[i] == outcomes[i]);
        }
        lemma_would_block_stays_in_progress(state, init);
    } else if outcomes.len() == 1 {
        assert(outcomes.drop_last().len() == 0);
        assert(state.after_all(outcomes.drop_last()) == state);
        assert(outcomes.last() == outcomes[0]);
    }
}

/// A suspended handshake settles with the first step that does not block:
/// complete if the engine completed it, failed if the engine failed it.
pub proof fn lemma_resumed_handshake_settles(blocked: Seq<StepOutcome>, decisive: StepOutcome)
    requires
        forall|i: int| 0 <= i < blocked.len() ==> #[trigger] blocked[i] is WouldBlock,
        !(decisive is WouldBlock),
    ensures
        HandshakeState::InProgress.after_all(blocked.push(decisive)).is_terminal(),
        decisive is Complete ==> HandshakeState::InProgress.after_all(blocked.push(decisive))
            is Complete,
        decisive is Failure || decisive is Rejected ==> HandshakeState::InProgress.after_all(
            blocked.push(decisive),
        ) is Failed,
{
    lemma_would_block_stays_in_progress(HandshakeState::InProgress, blocked);
    assert(blocked.push(decisive).drop_last() == blocked);
    assert(blocked.push(decisive).last() == decisive);
}

} // verus!
