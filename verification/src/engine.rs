//! The decisions of one run.
//!
//! A run is strictly sequential: keys, descriptor, connection, sync, then
//! what the balance calls for, and for a funded wallet build, sign and
//! broadcast. The outside work is done by the caller; the engine says, for
//! each thing that happened, what is done next, and ends the run on the first
//! failure.

use crate::balance::{state_of, Thresholds, WalletBalance, WalletState};
use vstd::prelude::*;

verus! {

/// The kinds of failure that end a run.
#[derive(Clone, Copy, Debug, PartialEq, Eq, Structural)]
pub enum ErrorKind {
    /// The persisted key material is malformed or unreadable.
    Config,
    /// New keys could not be made.
    KeyGeneration,
    /// No descriptor could be made of the keys.
    DescriptorConstruction,
    /// The remote indexer could not be reached.
    Connection,
    /// The wallet could not be brought up to date.
    Sync,
    /// No acceptable transaction could be built.
    Build,
    /// A required signature could not be made.
    Signing,
    /// The signatures do not complete the transaction.
    Finalization,
    /// The remote indexer refused the transaction.
    Broadcast,
    /// Something was reported that the run was not waiting for.
    Protocol,
}

/// How a run ended without failure.
#[derive(Clone, Copy, Debug, PartialEq, Eq, Structural)]
pub enum Outcome {
    /// The wallet is empty: the deposit address was reported.
    FundingRequested,
    /// Funds are on their way: the pending transactions were reported.
    ConfirmationAwaited,
    /// The wallet was drained and the transaction is out.
    Drained,
}

/// What a run is waiting for.
#[derive(Clone, Copy, Debug, PartialEq, Eq, Structural)]
pub enum Phase {
    Start,
    LoadingKeys,
    BuildingDescriptor,
    Connecting,
    Syncing,
    Building,
    Signing,
    Broadcasting,
    Finished(Outcome),
    Failed(ErrorKind),
}

/// What happened outside.
#[derive(Clone, Copy, Debug, PartialEq, Eq, Structural)]
pub enum Event {
    Begin,
    KeysLoaded,
    DescriptorBuilt,
    Connected,
    Synced(WalletBalance),
    Built,
    Signed { finalized: bool },
    Broadcast,
    Failed(ErrorKind),
}

/// What the caller does next.
#[derive(Clone, Copy, Debug, PartialEq, Eq, Structural)]
pub enum Action {
    LoadKeys,
    BuildDescriptor,
    Connect,
    Sync,
    /// Report the deposit address and how to fund it; then the run is over.
    RequestFunding,
    /// Report the pending inbound transactions; then the run is over.
    ListPending,
    BuildDrain,
    Sign,
    Broadcast,
    /// Report the transaction's identifier; then the run is over.
    ReportSuccess,
    /// Report the failure and end with an error status.
    Abort(ErrorKind),
    /// Nothing: the run is over already.
    Stop,
}

/// The decisions of a run under given thresholds.
#[derive(Clone, Copy, Debug, PartialEq, Eq, Structural)]
pub struct Engine {
    pub phase: Phase,
    pub thresholds: Thresholds,
}

/// A phase in which the run is over.
pub open spec fn is_terminal(phase: Phase) -> bool {
    phase is Finished || phase is Failed
}

/// The phase that follows a phase on an event, and what is done then.
pub open spec fn step(phase: Phase, thresholds: Thresholds, event: Event) -> (Phase, Action) {
    if is_terminal(phase) {
        (phase, Action::Stop)
    } else if event is Failed {
        (Phase::Failed(event->Failed_0), Action::Abort(event->Failed_0))
    } else {
        match (phase, event) {
            (Phase::Start, Event::Begin) => (Phase::LoadingKeys, Action::LoadKeys),
            (Phase::LoadingKeys, Event::KeysLoaded) => (Phase::BuildingDescriptor, Action::BuildDescriptor),
            (Phase::BuildingDescriptor, Event::DescriptorBuilt) => (Phase::Connecting, Action::Connect),
            (Phase::Connecting, Event::Connected) => (Phase::Syncing, Action::Sync),
            (Phase::Syncing, Event::Synced(balance)) => match state_of(balance, thresholds) {
                WalletState::Empty => (Phase::Finished(Outcome::FundingRequested), Action::RequestFunding),
                WalletState::AwaitingConfirmation => (
                    Phase::Finished(Outcome::ConfirmationAwaited),
                    Action::ListPending,
                ),
                WalletState::Ready => (Phase::Building, Action::BuildDrain),
            },
            (Phase::Building, Event::Built) => (Phase::Signing, Action::Sign),
            (Phase::Signing, Event::Signed { finalized }) => if finalized {
                (Phase::Broadcasting, Action::Broadcast)
            } else {
                (Phase::Failed(ErrorKind::Finalization), Action::Abort(ErrorKind::Finalization))
            },
            (Phase::Broadcasting, Event::Broadcast) => (
                Phase::Finished(Outcome::Drained),
                Action::ReportSuccess,
            ),
            _ => (Phase::Failed(ErrorKind::Protocol), Action::Abort(ErrorKind::Protocol)),
        }
    }
}

/// How far a phase is into the run.
pub open spec fn rank(phase: Phase) -> nat {
    match phase {
        Phase::Start => 0,
        Phase::LoadingKeys => 1,
        Phase::BuildingDescriptor => 2,
        Phase::Connecting => 3,
        Phase::Syncing => 4,
        Phase::Building => 5,
        Phase::Signing => 6,
        Phase::Broadcasting => 7,
        Phase::Finished(_) => 8,
        Phase::Failed(_) => 8,
    }
}

impl Engine {
    /// A run that has not begun, under given thresholds.
    pub fn new(thresholds: Thresholds) -> (engine: Engine)
        ensures
            engine.phase == Phase::Start,
            engine.thresholds == thresholds,
    {
        Engine { phase: Phase::Start, thresholds }
    }

    /// Whether the run is over.
    pub fn is_over(&self) -> (over: bool)
        ensures
            over == is_terminal(self.phase),
    {
        match self.phase {
            Phase::Finished(_) => true,
            Phase::Failed(_) => true,
            _ => false,
        }
    }

    /// Takes in what happened and says what is done next.
    pub fn advance(&mut self, event: Event) -> (action: Action)
        ensures
            final(self).thresholds == old(self).thresholds,
            (final(self).phase, action) == step(old(self).phase, old(self).thresholds, event),
    {
        let (phase, action) = decide(self.phase, &self.thresholds, event);
        self.phase = phase;
        action
    }
}

/// The phase that follows a phase on an event, and what is done then.
pub fn decide(phase: Phase, thresholds: &Thresholds, event: Event) -> (r: (Phase, Action))
    ensures
        r == step(phase, *thresholds, event),
{
    match phase {
        Phase::Finished(_) => {
            return (phase, Action::Stop);
        },
        Phase::Failed(_) => {
            return (phase, Action::Stop);
        },
        _ => {},
    }
    match event {
        Event::Failed(kind) => {
            return (Phase::Failed(kind), Action::Abort(kind));
        },
        _ => {},
    }
    let refused = (Phase::Failed(ErrorKind::Protocol), Action::Abort(ErrorKind::Protocol));
    match phase {
        Phase::Start => match event {
            Event::Begin => (Phase::LoadingKeys, Action::LoadKeys),
            _ => refused,
        },
        Phase::LoadingKeys => match event {
            Event::KeysLoaded => (Phase::BuildingDescriptor, Action::BuildDescriptor),
            _ => refused,
        },
        Phase::BuildingDescriptor => match event {
            Event::DescriptorBuilt => (Phase::Connecting, Action::Connect),
            _ => refused,
        },
        Phase::Connecting => match event {
            Event::Connected => (Phase::Syncing, Action::Sync),
            _ => refused,
        },
        Phase::Syncing => match event {
            Event::Synced(balance) => match balance.classify(thresholds) {
                WalletState::Empty => (Phase::Finished(Outcome::FundingRequested), Action::RequestFunding),
                WalletState::AwaitingConfirmation => (
                    Phase::Finished(Outcome::ConfirmationAwaited),
                    Action::ListPending,
                ),
                WalletState::Ready => (Phase::Building, Action::BuildDrain),
            },
            _ => refused,
        },
        Phase::Building => match event {
            Event::Built => (Phase::Signing, Action::Sign),
            _ => refused,
        },
        Phase::Signing => match event {
            Event::Signed { finalized } => if finalized {
                (Phase::Broadcasting, Action::Broadcast)
            } else {
                (Phase::Failed(ErrorKind::Finalization), Action::Abort(ErrorKind::Finalization))
            },
            _ => refused,
        },
        Phase::Broadcasting => match event {
            Event::Broadcast => (Phase::Finished(Outcome::Drained), Action::ReportSuccess),
            _ => refused,
        },
        Phase::Finished(_) => (phase, Action::Stop),
        Phase::Failed(_) => (phase, Action::Stop),
    }
}

/// Nothing is broadcast that finalization did not complete: a run is told to
/// broadcast only on the report of a signing pass that was finalized.
pub proof fn lemma_broadcast_needs_finalization(phase: Phase, thresholds: Thresholds, event: Event)
    requires
        step(phase, thresholds, event).1 == Action::Broadcast,
    ensures
        phase == Phase::Signing,
        event == (Event::Signed { finalized: true }),
{
}

/// A wallet is drained only on spendable funds: a run is told to build the
/// drain only after a sync that showed a spendable balance of at least the
/// spending threshold.
pub proof fn lemma_drain_needs_spendable(phase: Phase, thresholds: Thresholds, event: Event)
    requires
        step(phase, thresholds, event).1 == Action::BuildDrain,
    ensures
        phase == Phase::Syncing,
        event matches Event::Synced(balance) && balance.spendable >= thresholds.spend && balance.total
            >= thresholds.fund,
{
}

/// Every failure ends the run: on a reported failure a run that is not over
/// fails with that kind, and a run that is over stays as it is.
pub proof fn lemma_failures_end_the_run(phase: Phase, thresholds: Thresholds, kind: ErrorKind)
    ensures
        is_terminal(step(phase, thresholds, Event::Failed(kind)).0),
        !is_terminal(phase) ==> step(phase, thresholds, Event::Failed(kind)) == (
            Phase::Failed(kind),
            Action::Abort(kind),
        ),
        is_terminal(phase) ==> step(phase, thresholds, Event::Failed(kind)) == (phase, Action::Stop),
{
}

/// A run only moves forward: each step leads to a later phase, until the run
/// is over, and then nothing moves.
pub proof fn lemma_steps_move_forward(phase: Phase, thresholds: Thresholds, event: Event)
    ensures
        !is_terminal(phase) ==> rank(step(phase, thresholds, event).0) > rank(phase),
        is_terminal(phase) ==> step(phase, thresholds, event).0 == phase,
{
}

} // verus!
