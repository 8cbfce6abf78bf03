//! Incremental runtime: stamp transitions inside one binding epoch and the
//! closed phase state machine of an incremental visual update.
//!
//! A stamp is a two-word token `(sequence, epoch)`. A transition is admitted
//! only between adjacent sequences of the same epoch; the phase machine is
//! advanced exclusively through [`IncrementalRuntimePhaseV1::try_advance`].
use vstd::prelude::*;
use vstd::string::*;
use crate::hex::{append_decimal, decimal_text};

verus! {

/// Binding epoch for stamp transitions: an opaque non-zero tag that resets
/// the sequence space.
#[derive(Debug, Clone, Copy, PartialEq, Eq, Hash, Structural)]
pub struct StampBindingEpochV1 {
    value: u64,
}

impl StampBindingEpochV1 {
    /// The non-zero tag value.
    pub closed spec fn spec_value(self) -> u64 {
        self.value
    }

    #[verifier::type_invariant]
    spec fn non_zero(self) -> bool {
        self.value != 0
    }

    /// Wraps a non-zero epoch tag.
    pub fn new(value: u64) -> (epoch: Self)
        requires
            value != 0,
        ensures
            epoch.spec_value() == value,
    {
        Self { value }
    }

    /// The non-zero tag value.
    pub fn get(self) -> (value: u64)
        ensures
            value == self.spec_value(),
            value != 0,
    {
        proof {
            use_type_invariant(&self);
        }
        self.value
    }
}

/// A stamp identifying a committed state within a binding epoch.
#[derive(Debug, Clone, Copy, PartialEq, Eq, Hash, Structural)]
pub struct StampV1 {
    pub sequence: u64,
    pub binding_epoch: StampBindingEpochV1,
}

impl StampV1 {
    /// Builds a stamp from its sequence number and epoch.
    pub fn new(sequence: u64, binding_epoch: StampBindingEpochV1) -> (stamp: Self)
        ensures
            stamp.sequence == sequence,
            stamp.binding_epoch == binding_epoch,
    {
        Self { sequence, binding_epoch }
    }

    /// Sequence number inside the epoch.
    pub fn sequence(self) -> (sequence: u64)
        ensures
            sequence == self.sequence,
    {
        self.sequence
    }

    /// Binding epoch of the stamp.
    pub fn binding_epoch(self) -> (epoch: StampBindingEpochV1)
        ensures
            epoch == self.binding_epoch,
    {
        self.binding_epoch
    }

    /// The next stamp in the same epoch, or `None` when the sequence is
    /// already `u64::MAX`.
    pub fn checked_successor(self) -> (next: Option<Self>)
        ensures
            self.sequence < u64::MAX ==> next == Some(
                StampV1 { sequence: (self.sequence + 1) as u64, binding_epoch: self.binding_epoch },
            ),
            self.sequence == u64::MAX ==> next.is_none(),
    {
        match self.sequence.checked_add(1) {
            Some(sequence) => Some(Self::new(sequence, self.binding_epoch)),
            None => None,
        }
    }
}

/// Typed error for an invalid stamp transition.
#[derive(Debug, Clone, Copy, PartialEq, Eq, Hash, Structural)]
pub enum StampTransitionErrorV1 {
    /// Destination sequence is not exactly source + 1.
    SequenceRegression { source_sequence: u64, destination_sequence: u64 },
    /// Source and destination belong to different binding epochs.
    EpochMismatch { source_epoch: u64, destination_epoch: u64 },
    /// Source sequence is `u64::MAX`; no successor exists.
    NonAdjacentTransition { source_sequence: u64 },
}

/// Reason why `source -> destination` is not an admitted transition, or
/// `None` when the stamps are adjacent in one epoch.
pub open spec fn stamp_transition_error(source: StampV1, destination: StampV1) -> Option<
    StampTransitionErrorV1,
> {
    if source.binding_epoch.spec_value() != destination.binding_epoch.spec_value() {
        Some(
            StampTransitionErrorV1::EpochMismatch {
                source_epoch: source.binding_epoch.spec_value(),
                destination_epoch: destination.binding_epoch.spec_value(),
            },
        )
    } else if source.sequence == u64::MAX {
        Some(StampTransitionErrorV1::NonAdjacentTransition { source_sequence: source.sequence })
    } else if destination.sequence == source.sequence + 1 {
        None
    } else {
        Some(
            StampTransitionErrorV1::SequenceRegression {
                source_sequence: source.sequence,
                destination_sequence: destination.sequence,
            },
        )
    }
}

/// A transition between two adjacent stamps of one epoch.
#[derive(Debug, Clone, Copy, PartialEq, Eq, Hash, Structural)]
pub struct StampTransitionV1 {
    source: StampV1,
    destination: StampV1,
}

impl StampTransitionV1 {
    /// Source stamp of the transition.
    pub closed spec fn spec_source(self) -> StampV1 {
        self.source
    }

    /// Destination stamp of the transition.
    pub closed spec fn spec_destination(self) -> StampV1 {
        self.destination
    }

    /// Every admitted transition joins adjacent stamps of one epoch.
    pub closed spec fn wf(self) -> bool {
        &&& self.source.binding_epoch == self.destination.binding_epoch
        &&& self.destination.sequence == self.source.sequence + 1
    }

    #[verifier::type_invariant]
    spec fn adjacent(self) -> bool {
        self.wf()
    }

    /// Admits the transition `source -> destination`: the epochs must match
    /// and the destination must be exactly the successor of the source.
    pub fn try_new(source: StampV1, destination: StampV1) -> (result: Result<
        Self,
        StampTransitionErrorV1,
    >)
        ensures
            match stamp_transition_error(source, destination) {
                None => result matches Ok(t) && t.spec_source() == source && t.spec_destination()
                    == destination && t.wf(),
                Some(e) => result == Err::<Self, StampTransitionErrorV1>(e),
            },
    {
        let source_epoch = source.binding_epoch.get();
        let destination_epoch = destination.binding_epoch.get();
        if source_epoch != destination_epoch {
            return Err(
                StampTransitionErrorV1::EpochMismatch {
                    source_epoch,
                    destination_epoch,
                },
            );
        }
        proof {
            use_type_invariant(&source.binding_epoch);
            use_type_invariant(&destination.binding_epoch);
        }
        match source.checked_successor() {
            Some(expected) => {
                if expected.sequence == destination.sequence {
                    assert(source.binding_epoch == destination.binding_epoch);
                    Ok(Self { source, destination })
                } else {
                    Err(
                        StampTransitionErrorV1::SequenceRegression {
                            source_sequence: source.sequence,
                            destination_sequence: destination.sequence,
                        },
                    )
                }
            },
            None => Err(
                StampTransitionErrorV1::NonAdjacentTransition { source_sequence: source.sequence },
            ),
        }
    }

    /// Source stamp of the transition.
    pub fn source(self) -> (stamp: StampV1)
        ensures
            stamp == self.spec_source(),
    {
        self.source
    }

    /// Destination stamp of the transition.
    pub fn destination(self) -> (stamp: StampV1)
        ensures
            stamp == self.spec_destination(),
            stamp.sequence == self.spec_source().sequence + 1,
            stamp.binding_epoch == self.spec_source().binding_epoch,
    {
        proof {
            use_type_invariant(&self);
        }
        self.destination
    }
}

/// Opaque non-zero identifier of a joint feasible path computation result.
#[derive(Debug, Clone, Copy, PartialEq, Eq, Hash, Structural)]
pub struct JointFeasiblePathIdV1 {
    value: u64,
}

impl JointFeasiblePathIdV1 {
    /// The identifier value.
    pub closed spec fn spec_value(self) -> u64 {
        self.value
    }

    #[verifier::type_invariant]
    spec fn non_zero(self) -> bool {
        self.value != 0
    }

    /// Wraps a non-zero identifier.
    pub fn new(value: u64) -> (id: Self)
        requires
            value != 0,
        ensures
            id.spec_value() == value,
    {
        Self { value }
    }
}

/// Disposition of an atomic switch when no certified feasible path exists.
#[derive(Debug, Clone, Copy, PartialEq, Eq, Hash, Structural)]
pub enum AtomicSwitchFallbackV1 {
    /// Transition was committed.
    Committed,
    /// No certified path; fell back to a full re-resolve.
    FallbackToFull,
    /// Transition rejected with a reason.
    Rejected(StampTransitionErrorV1),
}

/// Tag-only mirror of [`IncrementalRuntimePhaseV1`] for error reporting.
#[derive(Debug, Clone, Copy, PartialEq, Eq, Hash, Structural)]
pub enum IncrementalRuntimePhaseTagV1 {
    Idle,
    Computing,
    Certified,
    Committed,
    FallbackFull,
    Failed,
}

/// Typed error for an invalid incremental runtime transition.
#[derive(Debug, Clone, Copy, PartialEq, Eq, Hash, Structural)]
pub enum IncrementalRuntimeErrorV1 {
    /// The phase transition violates the state machine.
    InvalidPhaseTransition {
        from: IncrementalRuntimePhaseTagV1,
        attempted_to: IncrementalRuntimePhaseTagV1,
    },
    /// Stamp epoch does not match the active binding epoch.
    StaleEpoch { expected: StampBindingEpochV1, received: StampBindingEpochV1 },
    /// The transition references a stamp that is not the successor of the head.
    StaleStamp { expected_sequence: u64, received_sequence: u64 },
    /// Certification requires a feasible path identifier.
    MissingFeasiblePathCertificate,
}

/// Closed state machine of the incremental runtime lifecycle.
#[derive(Debug, Clone, Copy, PartialEq, Eq, Hash, Structural)]
pub enum IncrementalRuntimePhaseV1 {
    /// Waiting for the first committed stamp in this binding epoch.
    Idle,
    /// A stamp has been committed; the incremental delta is being computed.
    Computing { current_stamp: StampV1 },
    /// Delta certified; awaiting terminal sink admission.
    Certified { current_stamp: StampV1, path_id: JointFeasiblePathIdV1 },
    /// The terminal sink admitted the transition; the frame is live.
    Committed { current_stamp: StampV1 },
    /// No certified path existed; a full re-resolve was triggered.
    FallbackFull { previous_stamp: StampV1 },
    /// Hard failure; the session must retire or reset its epoch.
    Failed { cause: IncrementalRuntimeErrorV1 },
}

/// Event that may advance the phase machine.
#[derive(Debug, Clone, Copy, PartialEq, Eq, Structural)]
pub enum PhaseTriggerV1 {
    StampArrived(StampV1),
    PathCertified(JointFeasiblePathIdV1),
    SinkAdmitted,
    NoFeasiblePath,
    EpochReset(StampBindingEpochV1),
    Failure(IncrementalRuntimeErrorV1),
}

/// Tag of a phase.
pub open spec fn phase_tag(phase: IncrementalRuntimePhaseV1) -> IncrementalRuntimePhaseTagV1 {
    match phase {
        IncrementalRuntimePhaseV1::Idle => IncrementalRuntimePhaseTagV1::Idle,
        IncrementalRuntimePhaseV1::Computing { .. } => IncrementalRuntimePhaseTagV1::Computing,
        IncrementalRuntimePhaseV1::Certified { .. } => IncrementalRuntimePhaseTagV1::Certified,
        IncrementalRuntimePhaseV1::Committed { .. } => IncrementalRuntimePhaseTagV1::Committed,
        IncrementalRuntimePhaseV1::FallbackFull { .. } => IncrementalRuntimePhaseTagV1::FallbackFull,
        IncrementalRuntimePhaseV1::Failed { .. } => IncrementalRuntimePhaseTagV1::Failed,
    }
}

/// Phase that a trigger attempts to reach.
pub open spec fn trigger_target(trigger: PhaseTriggerV1) -> IncrementalRuntimePhaseTagV1 {
    match trigger {
        PhaseTriggerV1::StampArrived(_) => IncrementalRuntimePhaseTagV1::Computing,
        PhaseTriggerV1::PathCertified(_) => IncrementalRuntimePhaseTagV1::Certified,
        PhaseTriggerV1::SinkAdmitted => IncrementalRuntimePhaseTagV1::Committed,
        PhaseTriggerV1::NoFeasiblePath => IncrementalRuntimePhaseTagV1::FallbackFull,
        PhaseTriggerV1::EpochReset(_) => IncrementalRuntimePhaseTagV1::Idle,
        PhaseTriggerV1::Failure(_) => IncrementalRuntimePhaseTagV1::Failed,
    }
}

/// The transition table of the incremental runtime.
pub open spec fn advance_spec(phase: IncrementalRuntimePhaseV1, trigger: PhaseTriggerV1) -> Result<
    IncrementalRuntimePhaseV1,
    IncrementalRuntimeErrorV1,
> {
    match (phase, trigger) {
        (IncrementalRuntimePhaseV1::Idle, PhaseTriggerV1::StampArrived(stamp)) => Ok(
            IncrementalRuntimePhaseV1::Computing { current_stamp: stamp },
        ),
        (
            IncrementalRuntimePhaseV1::Computing { current_stamp },
            PhaseTriggerV1::PathCertified(path_id),
        ) => Ok(IncrementalRuntimePhaseV1::Certified { current_stamp, path_id }),
        (IncrementalRuntimePhaseV1::Computing { current_stamp }, PhaseTriggerV1::NoFeasiblePath) => Ok(
            IncrementalRuntimePhaseV1::FallbackFull { previous_stamp: current_stamp },
        ),
        (IncrementalRuntimePhaseV1::Computing { .. }, PhaseTriggerV1::Failure(cause)) => Ok(
            IncrementalRuntimePhaseV1::Failed { cause },
        ),
        (IncrementalRuntimePhaseV1::Certified { current_stamp, .. }, PhaseTriggerV1::SinkAdmitted) => Ok(
            IncrementalRuntimePhaseV1::Committed { current_stamp },
        ),
        (IncrementalRuntimePhaseV1::Certified { current_stamp, .. }, PhaseTriggerV1::NoFeasiblePath) => Ok(
            IncrementalRuntimePhaseV1::FallbackFull { previous_stamp: current_stamp },
        ),
        (IncrementalRuntimePhaseV1::Certified { .. }, PhaseTriggerV1::Failure(cause)) => Ok(
            IncrementalRuntimePhaseV1::Failed { cause },
        ),
        (
            IncrementalRuntimePhaseV1::Committed { current_stamp },
            PhaseTriggerV1::StampArrived(new_stamp),
        ) => if stamp_transition_error(current_stamp, new_stamp) is None {
            Ok(IncrementalRuntimePhaseV1::Computing { current_stamp: new_stamp })
        } else {
            Err(
                IncrementalRuntimeErrorV1::StaleStamp {
                    expected_sequence: if current_stamp.sequence == u64::MAX {
                        u64::MAX
                    } else {
                        (current_stamp.sequence + 1) as u64
                    },
                    received_sequence: new_stamp.sequence,
                },
            )
        },
        (IncrementalRuntimePhaseV1::Committed { .. }, PhaseTriggerV1::EpochReset(_)) => Ok(
            IncrementalRuntimePhaseV1::Idle,
        ),
        (IncrementalRuntimePhaseV1::FallbackFull { .. }, PhaseTriggerV1::EpochReset(_)) => Ok(
            IncrementalRuntimePhaseV1::Idle,
        ),
        (IncrementalRuntimePhaseV1::FallbackFull { .. }, PhaseTriggerV1::Failure(cause)) => Ok(
            IncrementalRuntimePhaseV1::Failed { cause },
        ),
        (IncrementalRuntimePhaseV1::Failed { .. }, PhaseTriggerV1::EpochReset(_)) => Ok(
            IncrementalRuntimePhaseV1::Idle,
        ),
        (from, trigger) => Err(
            IncrementalRuntimeErrorV1::InvalidPhaseTransition {
                from: phase_tag(from),
                attempted_to: trigger_target(trigger),
            },
        ),
    }
}

impl IncrementalRuntimePhaseV1 {
    /// Tag-only representation of this phase.
    pub fn tag(self) -> (tag: IncrementalRuntimePhaseTagV1)
        ensures
            tag == phase_tag(self),
    {
        match self {
            Self::Idle => IncrementalRuntimePhaseTagV1::Idle,
            Self::Computing { .. } => IncrementalRuntimePhaseTagV1::Computing,
            Self::Certified { .. } => IncrementalRuntimePhaseTagV1::Certified,
            Self::Committed { .. } => IncrementalRuntimePhaseTagV1::Committed,
            Self::FallbackFull { .. } => IncrementalRuntimePhaseTagV1::FallbackFull,
            Self::Failed { .. } => IncrementalRuntimePhaseTagV1::Failed,
        }
    }

    /// Advances the phase by one trigger, or reports why the trigger is not a
    /// valid transition from the current phase.
    pub fn try_advance(self, trigger: PhaseTriggerV1) -> (result: Result<
        Self,
        IncrementalRuntimeErrorV1,
    >)
        ensures
            result == advance_spec(self, trigger),
    {
        match (self, trigger) {
            (Self::Idle, PhaseTriggerV1::StampArrived(stamp)) => Ok(
                Self::Computing { current_stamp: stamp },
            ),
            (Self::Computing { current_stamp }, PhaseTriggerV1::PathCertified(path_id)) => Ok(
                Self::Certified { current_stamp, path_id },
            ),
            (Self::Computing { current_stamp }, PhaseTriggerV1::NoFeasiblePath) => Ok(
                Self::FallbackFull { previous_stamp: current_stamp },
            ),
            (Self::Computing { .. }, PhaseTriggerV1::Failure(cause)) => Ok(Self::Failed { cause }),
            (Self::Certified { current_stamp, .. }, PhaseTriggerV1::SinkAdmitted) => Ok(
                Self::Committed { current_stamp },
            ),
            (Self::Certified { current_stamp, .. }, PhaseTriggerV1::NoFeasiblePath) => Ok(
                Self::FallbackFull { previous_stamp: current_stamp },
            ),
            (Self::Certified { .. }, PhaseTriggerV1::Failure(cause)) => Ok(Self::Failed { cause }),
            (Self::Committed { current_stamp }, PhaseTriggerV1::StampArrived(new_stamp)) => {
                match StampTransitionV1::try_new(current_stamp, new_stamp) {
                    Ok(_) => Ok(Self::Computing { current_stamp: new_stamp }),
                    Err(_) => Err(
                        IncrementalRuntimeErrorV1::StaleStamp {
                            expected_sequence: current_stamp.sequence().saturating_add(1),
                            received_sequence: new_stamp.sequence(),
                        },
                    ),
                }
            },
            (Self::Committed { .. }, PhaseTriggerV1::EpochReset(_)) => Ok(Self::Idle),
            (Self::FallbackFull { .. }, PhaseTriggerV1::EpochReset(_)) => Ok(Self::Idle),
            (Self::FallbackFull { .. }, PhaseTriggerV1::Failure(cause)) => Ok(
                Self::Failed { cause },
            ),
            (Self::Failed { .. }, PhaseTriggerV1::EpochReset(_)) => Ok(Self::Idle),
            (from, trigger) => {
                let attempted_to = match trigger {
                    PhaseTriggerV1::StampArrived(_) => IncrementalRuntimePhaseTagV1::Computing,
                    PhaseTriggerV1::PathCertified(_) => IncrementalRuntimePhaseTagV1::Certified,
                    PhaseTriggerV1::SinkAdmitted => IncrementalRuntimePhaseTagV1::Committed,
                    PhaseTriggerV1::NoFeasiblePath => IncrementalRuntimePhaseTagV1::FallbackFull,
                    PhaseTriggerV1::EpochReset(_) => IncrementalRuntimePhaseTagV1::Idle,
                    PhaseTriggerV1::Failure(_) => IncrementalRuntimePhaseTagV1::Failed,
                };
                Err(
                    IncrementalRuntimeErrorV1::InvalidPhaseTransition {
                        from: from.tag(),
                        attempted_to,
                    },
                )
            },
        }
    }
}

/// Result of dispatching a stamp transition against the current phase.
#[derive(Debug, Clone, Copy, PartialEq, Eq, Structural)]
pub enum TransitionDispatchOutcomeV1 {
    /// The phase advanced.
    Advanced(IncrementalRuntimePhaseV1),
    /// Dispatch rejected; the phase is unchanged and the error returned.
    Rejected(IncrementalRuntimeErrorV1),
}

/// Feeds the destination of an admitted transition to the phase machine as a
/// stamp arrival.
pub fn dispatch_stamp_transition(
    phase: IncrementalRuntimePhaseV1,
    transition: StampTransitionV1,
) -> (outcome: TransitionDispatchOutcomeV1)
    ensures
        match advance_spec(
            phase,
            PhaseTriggerV1::StampArrived(transition.spec_destination()),
        ) {
            Ok(next) => outcome == TransitionDispatchOutcomeV1::Advanced(next),
            Err(e) => outcome == TransitionDispatchOutcomeV1::Rejected(e),
        },
{
    match phase.try_advance(PhaseTriggerV1::StampArrived(transition.destination())) {
        Ok(next) => TransitionDispatchOutcomeV1::Advanced(next),
        Err(e) => TransitionDispatchOutcomeV1::Rejected(e),
    }
}

/// The variant of a prepared session disposition, the only part of it that
/// the atomic-switch bridge reads.
#[derive(Debug, Clone, Copy, PartialEq, Eq, Hash, Structural)]
pub enum SessionDispositionKindV1 {
    Idempotent,
    Unknown,
    Verified,
    Violation,
}

/// Maps a session disposition and the runtime phase to the atomic-switch
/// fallback: a committed phase or a verified disposition commits, a fallback
/// phase and every other case fall back to a full re-resolve.
pub fn bind_incremental_transition_to_session(
    disposition: SessionDispositionKindV1,
    runtime_phase: IncrementalRuntimePhaseV1,
) -> (fallback: AtomicSwitchFallbackV1)
    ensures
        fallback == (if runtime_phase is Committed {
            AtomicSwitchFallbackV1::Committed
        } else if runtime_phase is FallbackFull {
            AtomicSwitchFallbackV1::FallbackToFull
        } else if disposition is Verified {
            AtomicSwitchFallbackV1::Committed
        } else {
            AtomicSwitchFallbackV1::FallbackToFull
        }),
{
    match (runtime_phase, disposition) {
        (IncrementalRuntimePhaseV1::Committed { .. }, _) => AtomicSwitchFallbackV1::Committed,
        (IncrementalRuntimePhaseV1::FallbackFull { .. }, _) => AtomicSwitchFallbackV1::FallbackToFull,
        (_, SessionDispositionKindV1::Verified) => AtomicSwitchFallbackV1::Committed,
        _ => AtomicSwitchFallbackV1::FallbackToFull,
    }
}

/// The stamp a phase currently holds, if any.
pub open spec fn phase_stamp(phase: IncrementalRuntimePhaseV1) -> Option<StampV1> {
    match phase {
        IncrementalRuntimePhaseV1::Computing { current_stamp } => Some(current_stamp),
        IncrementalRuntimePhaseV1::Certified { current_stamp, .. } => Some(current_stamp),
        IncrementalRuntimePhaseV1::Committed { current_stamp } => Some(current_stamp),
        IncrementalRuntimePhaseV1::FallbackFull { previous_stamp } => Some(previous_stamp),
        _ => None,
    }
}

/// The successor of any stamp below `u64::MAX` is always an admitted
/// transition whose destination sequence is the source sequence plus one.
pub proof fn lemma_checked_successor_is_admitted(stamp: StampV1)
    requires
        stamp.sequence < u64::MAX,
    ensures
        stamp_transition_error(
            stamp,
            StampV1 { sequence: (stamp.sequence + 1) as u64, binding_epoch: stamp.binding_epoch },
        ) is None,
{
}

/// Within one epoch, a destination that is not exactly the successor of the
/// source is rejected.
pub proof fn lemma_non_adjacent_destination_rejected(source: StampV1, destination: StampV1)
    requires
        source.binding_epoch == destination.binding_epoch,
        destination.sequence != source.sequence + 1,
    ensures
        stamp_transition_error(source, destination) is Some,
{
}

/// A failed runtime leaves `Failed` only through an epoch reset, which always
/// returns it to `Idle`.
pub proof fn lemma_failed_leaves_only_by_epoch_reset(
    cause: IncrementalRuntimeErrorV1,
    trigger: PhaseTriggerV1,
)
    ensures
        advance_spec(IncrementalRuntimePhaseV1::Failed { cause }, trigger) is Ok <==> trigger
            is EpochReset,
        trigger is EpochReset ==> advance_spec(IncrementalRuntimePhaseV1::Failed { cause }, trigger)
            == Ok::<IncrementalRuntimePhaseV1, IncrementalRuntimeErrorV1>(
            IncrementalRuntimePhaseV1::Idle,
        ),
{
}

/// The nominal lifecycle: a stamp arriving at `Idle`, a certified path and a
/// sink admission commit exactly that stamp.
pub proof fn lemma_arrival_certification_admission_commits(
    stamp: StampV1,
    path_id: JointFeasiblePathIdV1,
)
    ensures
        advance_spec(IncrementalRuntimePhaseV1::Idle, PhaseTriggerV1::StampArrived(stamp)) == Ok::<
            IncrementalRuntimePhaseV1,
            IncrementalRuntimeErrorV1,
        >(IncrementalRuntimePhaseV1::Computing { current_stamp: stamp }),
        advance_spec(
            IncrementalRuntimePhaseV1::Computing { current_stamp: stamp },
            PhaseTriggerV1::PathCertified(path_id),
        ) == Ok::<IncrementalRuntimePhaseV1, IncrementalRuntimeErrorV1>(
            IncrementalRuntimePhaseV1::Certified { current_stamp: stamp, path_id },
        ),
        advance_spec(
            IncrementalRuntimePhaseV1::Certified { current_stamp: stamp, path_id },
            PhaseTriggerV1::SinkAdmitted,
        ) == Ok::<IncrementalRuntimePhaseV1, IncrementalRuntimeErrorV1>(
            IncrementalRuntimePhaseV1::Committed { current_stamp: stamp },
        ),
{
}

/// Stamps never regress: across any admitted transition between two phases
/// that hold a stamp, the epoch is preserved and the sequence either stays or
/// advances by exactly one (the latter only from `Committed`).
pub proof fn lemma_admitted_transitions_preserve_stamp_monotonicity(
    phase: IncrementalRuntimePhaseV1,
    trigger: PhaseTriggerV1,
)
    requires
        advance_spec(phase, trigger) is Ok,
        phase_stamp(phase) is Some,
        phase_stamp(advance_spec(phase, trigger)->Ok_0) is Some,
    ensures
        ({
            let before = phase_stamp(phase)->Some_0;
            let after = phase_stamp(advance_spec(phase, trigger)->Ok_0)->Some_0;
            &&& before.binding_epoch.spec_value() == after.binding_epoch.spec_value()
            &&& after.sequence == before.sequence || (after.sequence == before.sequence + 1
                && phase is Committed)
        }),
{
}

/// A rejected trigger is reported with the phase it was applied to and the
/// phase it attempted to reach, unless it is a stale stamp at `Committed`.
pub proof fn lemma_rejection_names_source_and_target(
    phase: IncrementalRuntimePhaseV1,
    trigger: PhaseTriggerV1,
)
    requires
        advance_spec(phase, trigger) is Err,
        !(phase is Committed && trigger is StampArrived),
    ensures
        advance_spec(phase, trigger) == Err::<IncrementalRuntimePhaseV1, IncrementalRuntimeErrorV1>(
            IncrementalRuntimeErrorV1::InvalidPhaseTransition {
                from: phase_tag(phase),
                attempted_to: trigger_target(trigger),
            },
        ),
{
}

/// Every documented edge of the lifecycle is admitted and lands where the
/// lifecycle says:
/// `Idle --StampArrived--> Computing`,
/// `Computing --PathCertified--> Certified`,
/// `Computing --NoFeasiblePath--> FallbackFull`,
/// `Certified --SinkAdmitted--> Committed`,
/// `Certified --NoFeasiblePath--> FallbackFull` (admission timeout or
/// rejection), `Computing | Certified | FallbackFull --Failure--> Failed`,
/// `Committed | FallbackFull | Failed --EpochReset--> Idle`, and
/// `Committed --StampArrived(s)--> Computing` for the successor stamp `s`
/// of the same epoch, any other stamp being stale.
pub proof fn lemma_documented_edges_are_admitted(
    stamp: StampV1,
    next: StampV1,
    path_id: JointFeasiblePathIdV1,
    cause: IncrementalRuntimeErrorV1,
    epoch: StampBindingEpochV1,
)
    ensures
        advance_spec(IncrementalRuntimePhaseV1::Idle, PhaseTriggerV1::StampArrived(stamp))
            == Ok::<IncrementalRuntimePhaseV1, IncrementalRuntimeErrorV1>(
            IncrementalRuntimePhaseV1::Computing { current_stamp: stamp },
        ),
        advance_spec(
            IncrementalRuntimePhaseV1::Computing { current_stamp: stamp },
            PhaseTriggerV1::PathCertified(path_id),
        ) == Ok::<IncrementalRuntimePhaseV1, IncrementalRuntimeErrorV1>(
            IncrementalRuntimePhaseV1::Certified { current_stamp: stamp, path_id },
        ),
        advance_spec(
            IncrementalRuntimePhaseV1::Computing { current_stamp: stamp },
            PhaseTriggerV1::NoFeasiblePath,
        ) == Ok::<IncrementalRuntimePhaseV1, IncrementalRuntimeErrorV1>(
            IncrementalRuntimePhaseV1::FallbackFull { previous_stamp: stamp },
        ),
        advance_spec(
            IncrementalRuntimePhaseV1::Certified { current_stamp: stamp, path_id },
            PhaseTriggerV1::SinkAdmitted,
        ) == Ok::<IncrementalRuntimePhaseV1, IncrementalRuntimeErrorV1>(
            IncrementalRuntimePhaseV1::Committed { current_stamp: stamp },
        ),
        advance_spec(
            IncrementalRuntimePhaseV1::Certified { current_stamp: stamp, path_id },
            PhaseTriggerV1::NoFeasiblePath,
        ) == Ok::<IncrementalRuntimePhaseV1, IncrementalRuntimeErrorV1>(
            IncrementalRuntimePhaseV1::FallbackFull { previous_stamp: stamp },
        ),
        advance_spec(
            IncrementalRuntimePhaseV1::Computing { current_stamp: stamp },
            PhaseTriggerV1::Failure(cause),
        ) == Ok::<IncrementalRuntimePhaseV1, IncrementalRuntimeErrorV1>(
            IncrementalRuntimePhaseV1::Failed { cause },
        ),
        advance_spec(
            IncrementalRuntimePhaseV1::Certified { current_stamp: stamp, path_id },
            PhaseTriggerV1::Failure(cause),
        ) == Ok::<IncrementalRuntimePhaseV1, IncrementalRuntimeErrorV1>(
            IncrementalRuntimePhaseV1::Failed { cause },
        ),
        advance_spec(
            IncrementalRuntimePhaseV1::FallbackFull { previous_stamp: stamp },
            PhaseTriggerV1::Failure(cause),
        ) == Ok::<IncrementalRuntimePhaseV1, IncrementalRuntimeErrorV1>(
            IncrementalRuntimePhaseV1::Failed { cause },
        ),
        advance_spec(
            IncrementalRuntimePhaseV1::Committed { current_stamp: stamp },
            PhaseTriggerV1::EpochReset(epoch),
        ) == Ok::<IncrementalRuntimePhaseV1, IncrementalRuntimeErrorV1>(IncrementalRuntimePhaseV1::Idle),
        advance_spec(
            IncrementalRuntimePhaseV1::FallbackFull { previous_stamp: stamp },
            PhaseTriggerV1::EpochReset(epoch),
        ) == Ok::<IncrementalRuntimePhaseV1, IncrementalRuntimeErrorV1>(IncrementalRuntimePhaseV1::Idle),
        advance_spec(IncrementalRuntimePhaseV1::Failed { cause }, PhaseTriggerV1::EpochReset(epoch))
            == Ok::<IncrementalRuntimePhaseV1, IncrementalRuntimeErrorV1>(
            IncrementalRuntimePhaseV1::Idle,
        ),
        next.binding_epoch.spec_value() == stamp.binding_epoch.spec_value() && next.sequence
            == stamp.sequence + 1 ==> advance_spec(
            IncrementalRuntimePhaseV1::Committed { current_stamp: stamp },
            PhaseTriggerV1::StampArrived(next),
        ) == Ok::<IncrementalRuntimePhaseV1, IncrementalRuntimeErrorV1>(
            IncrementalRuntimePhaseV1::Computing { current_stamp: next },
        ),
        !(next.binding_epoch.spec_value() == stamp.binding_epoch.spec_value() && next.sequence
            == stamp.sequence + 1) ==> advance_spec(
            IncrementalRuntimePhaseV1::Committed { current_stamp: stamp },
            PhaseTriggerV1::StampArrived(next),
        ) == Err::<IncrementalRuntimePhaseV1, IncrementalRuntimeErrorV1>(
            IncrementalRuntimeErrorV1::StaleStamp {
                expected_sequence: if stamp.sequence == u64::MAX {
                    u64::MAX
                } else {
                    (stamp.sequence + 1) as u64
                },
                received_sequence: next.sequence,
            },
        ),
{
}

/// Human-readable text of a stamp transition error.
pub open spec fn stamp_error_text(error: StampTransitionErrorV1) -> Seq<char> {
    match error {
        StampTransitionErrorV1::SequenceRegression { source_sequence, destination_sequence } => {
            "stamp transition sequence regression: source="@ + decimal_text(source_sequence as nat)
                + ", destination="@ + decimal_text(destination_sequence as nat)
        },
        StampTransitionErrorV1::EpochMismatch { source_epoch, destination_epoch } => {
            "stamp transition epoch mismatch: source="@ + decimal_text(source_epoch as nat)
                + ", destination="@ + decimal_text(destination_epoch as nat)
        },
        StampTransitionErrorV1::NonAdjacentTransition { source_sequence } => {
            "stamp transition non-adjacent: source sequence "@ + decimal_text(source_sequence as nat)
                + " has no successor"@
        },
    }
}

impl StampTransitionErrorV1 {
    /// Human-readable description of the error.
    pub fn message(&self) -> (text: String)
        ensures
            text@ == stamp_error_text(*self),
    {
        match *self {
            StampTransitionErrorV1::SequenceRegression { source_sequence, destination_sequence } => {
                let mut text = String::from_str("stamp transition sequence regression: source=");
                append_decimal(&mut text, source_sequence);
                text.append(", destination=");
                append_decimal(&mut text, destination_sequence);
                text
            },
            StampTransitionErrorV1::EpochMismatch { source_epoch, destination_epoch } => {
                let mut text = String::from_str("stamp transition epoch mismatch: source=");
                append_decimal(&mut text, source_epoch);
                text.append(", destination=");
                append_decimal(&mut text, destination_epoch);
                text
            },
            StampTransitionErrorV1::NonAdjacentTransition { source_sequence } => {
                let mut text = String::from_str("stamp transition non-adjacent: source sequence ");
                append_decimal(&mut text, source_sequence);
                text.append(" has no successor");
                text
            },
        }
    }
}

/// Name of a phase tag.
pub open spec fn phase_tag_name(tag: IncrementalRuntimePhaseTagV1) -> Seq<char> {
    match tag {
        IncrementalRuntimePhaseTagV1::Idle => "Idle"@,
        IncrementalRuntimePhaseTagV1::Computing => "Computing"@,
        IncrementalRuntimePhaseTagV1::Certified => "Certified"@,
        IncrementalRuntimePhaseTagV1::Committed => "Committed"@,
        IncrementalRuntimePhaseTagV1::FallbackFull => "FallbackFull"@,
        IncrementalRuntimePhaseTagV1::Failed => "Failed"@,
    }
}

impl IncrementalRuntimePhaseTagV1 {
    /// Name of the tag.
    pub fn name(self) -> (name: &'static str)
        ensures
            name@ == phase_tag_name(self),
    {
        match self {
            IncrementalRuntimePhaseTagV1::Idle => "Idle",
            IncrementalRuntimePhaseTagV1::Computing => "Computing",
            IncrementalRuntimePhaseTagV1::Certified => "Certified",
            IncrementalRuntimePhaseTagV1::Committed => "Committed",
            IncrementalRuntimePhaseTagV1::FallbackFull => "FallbackFull",
            IncrementalRuntimePhaseTagV1::Failed => "Failed",
        }
    }
}

/// Text of an epoch as its debug form `StampBindingEpochV1(n)`.
pub open spec fn epoch_text(epoch: StampBindingEpochV1) -> Seq<char> {
    "StampBindingEpochV1("@ + decimal_text(epoch.spec_value() as nat) + ")"@
}

/// Human-readable text of an incremental runtime error.
pub open spec fn runtime_error_text(error: IncrementalRuntimeErrorV1) -> Seq<char> {
    match error {
        IncrementalRuntimeErrorV1::InvalidPhaseTransition { from, attempted_to } => {
            "invalid incremental runtime phase transition: "@ + phase_tag_name(from) + " -> "@
                + phase_tag_name(attempted_to)
        },
        IncrementalRuntimeErrorV1::StaleEpoch { expected, received } => {
            "stale stamp epoch: expected "@ + epoch_text(expected) + ", received "@ + epoch_text(
                received,
            )
        },
        IncrementalRuntimeErrorV1::StaleStamp { expected_sequence, received_sequence } => {
            "stale stamp sequence: expected "@ + decimal_text(expected_sequence as nat)
                + ", received "@ + decimal_text(received_sequence as nat)
        },
        IncrementalRuntimeErrorV1::MissingFeasiblePathCertificate => {
            "missing feasible path certificate for certification"@
        },
    }
}

fn append_epoch(text: &mut String, epoch: StampBindingEpochV1)
    ensures
        final(text)@ == old(text)@ + epoch_text(epoch),
{
    text.append("StampBindingEpochV1(");
    append_decimal(text, epoch.get());
    text.append(")");
    assert(final(text)@ =~= old(text)@ + epoch_text(epoch));
}

impl IncrementalRuntimeErrorV1 {
    /// Human-readable description of the error.
    pub fn message(&self) -> (text: String)
        ensures
            text@ == runtime_error_text(*self),
    {
        match *self {
            IncrementalRuntimeErrorV1::InvalidPhaseTransition { from, attempted_to } => {
                let mut text = String::from_str("invalid incremental runtime phase transition: ");
                text.append(from.name());
                text.append(" -> ");
                text.append(attempted_to.name());
                text
            },
            IncrementalRuntimeErrorV1::StaleEpoch { expected, received } => {
                let mut text = String::from_str("stale stamp epoch: expected ");
                append_epoch(&mut text, expected);
                text.append(", received ");
                append_epoch(&mut text, received);
                text
            },
            IncrementalRuntimeErrorV1::StaleStamp { expected_sequence, received_sequence } => {
                let mut text = String::from_str("stale stamp sequence: expected ");
                append_decimal(&mut text, expected_sequence);
                text.append(", received ");
                append_decimal(&mut text, received_sequence);
                text
            },
            IncrementalRuntimeErrorV1::MissingFeasiblePathCertificate => {
                String::from_str("missing feasible path certificate for certification")
            },
        }
    }
}

} // verus!
