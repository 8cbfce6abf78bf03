use labcolors_core::incremental_runtime::{
    bind_incremental_transition_to_session, dispatch_stamp_transition, AtomicSwitchFallbackV1,
    IncrementalRuntimeErrorV1, IncrementalRuntimePhaseTagV1, IncrementalRuntimePhaseV1,
    JointFeasiblePathIdV1, PhaseTriggerV1, SessionDispositionKindV1, StampBindingEpochV1,
    StampTransitionErrorV1, StampTransitionV1, StampV1, TransitionDispatchOutcomeV1,
};

fn epoch(n: u64) -> StampBindingEpochV1 {
    assert!(n != 0, "test invariant: epoch must be non-zero");
    StampBindingEpochV1::new(n)
}

fn stamp(seq: u64, ep: u64) -> StampV1 {
    StampV1::new(seq, epoch(ep))
}

fn path_id(n: u64) -> JointFeasiblePathIdV1 {
    assert!(n != 0, "test invariant: path id must be non-zero");
    JointFeasiblePathIdV1::new(n)
}

#[test]
fn valid_transition_round_trips_source_and_destination() {
    let e = epoch(1);
    let source = StampV1::new(10, e);
    let destination = StampV1::new(11, e);
    let transition = StampTransitionV1::try_new(source, destination)
        .expect("valid adjacent transition must succeed");
    assert_eq!(transition.source(), source);
    assert_eq!(transition.destination(), destination);
}

#[test]
fn sequence_regression_rejected_with_typed_error() {
    let e = epoch(1);
    let source = StampV1::new(10, e);
    let destination = StampV1::new(9, e);
    let err = StampTransitionV1::try_new(source, destination).expect_err("regression must fail");
    assert_eq!(
        err,
        StampTransitionErrorV1::SequenceRegression {
            source_sequence: 10,
            destination_sequence: 9,
        }
    );
}

#[test]
fn sequence_skip_rejected_with_typed_error() {
    let e = epoch(1);
    let source = StampV1::new(10, e);
    let destination = StampV1::new(12, e);
    let err = StampTransitionV1::try_new(source, destination)
        .expect_err("non-adjacent forward jump must fail");
    assert_eq!(
        err,
        StampTransitionErrorV1::SequenceRegression {
            source_sequence: 10,
            destination_sequence: 12,
        }
    );
}

#[test]
fn epoch_mismatch_rejected_with_typed_error() {
    let source = StampV1::new(10, epoch(1));
    let destination = StampV1::new(11, epoch(2));
    let err =
        StampTransitionV1::try_new(source, destination).expect_err("epoch mismatch must fail");
    assert_eq!(
        err,
        StampTransitionErrorV1::EpochMismatch {
            source_epoch: 1,
            destination_epoch: 2,
        }
    );
}

#[test]
fn overflow_source_rejected_as_non_adjacent() {
    let e = epoch(1);
    let source = StampV1::new(u64::MAX, e);
    let destination = StampV1::new(0, e);
    let err = StampTransitionV1::try_new(source, destination).expect_err("overflow must fail");
    assert_eq!(
        err,
        StampTransitionErrorV1::NonAdjacentTransition {
            source_sequence: u64::MAX,
        }
    );
}

#[test]
fn atomic_switch_fallback_exhaustive_match() {
    let e = epoch(1);
    let source = StampV1::new(5, e);
    let dest_bad = StampV1::new(3, e);

    let committed = AtomicSwitchFallbackV1::Committed;
    let fallback = AtomicSwitchFallbackV1::FallbackToFull;
    let rejected = AtomicSwitchFallbackV1::Rejected(
        StampTransitionV1::try_new(source, dest_bad).expect_err("must fail"),
    );

    let label = |value: AtomicSwitchFallbackV1| match value {
        AtomicSwitchFallbackV1::Committed => "c",
        AtomicSwitchFallbackV1::FallbackToFull => "f",
        AtomicSwitchFallbackV1::Rejected(_) => "r",
    };
    assert_eq!(label(committed), "c");
    assert_eq!(label(fallback), "f");
    assert_eq!(label(rejected), "r");
}

#[test]
fn joint_feasible_path_id_is_opaque_newtype() {
    let id = JointFeasiblePathIdV1::new(42);
    let id2 = JointFeasiblePathIdV1::new(42);
    let id3 = JointFeasiblePathIdV1::new(43);
    assert_eq!(id, id2);
    assert_ne!(id, id3);
}

#[test]
fn idle_to_computing_on_first_stamp() {
    let s = stamp(1, 1);
    let next = IncrementalRuntimePhaseV1::Idle
        .try_advance(PhaseTriggerV1::StampArrived(s))
        .expect("Idle -> Computing must succeed");
    assert_eq!(next, IncrementalRuntimePhaseV1::Computing { current_stamp: s });
}

#[test]
fn computing_to_certified_with_path_id() {
    let s = stamp(1, 1);
    let pid = path_id(99);
    let phase = IncrementalRuntimePhaseV1::Computing { current_stamp: s };
    let next = phase
        .try_advance(PhaseTriggerV1::PathCertified(pid))
        .expect("Computing -> Certified must succeed");
    assert_eq!(
        next,
        IncrementalRuntimePhaseV1::Certified {
            current_stamp: s,
            path_id: pid,
        }
    );
}

#[test]
fn computing_to_fallback_on_no_path() {
    let s = stamp(1, 1);
    let phase = IncrementalRuntimePhaseV1::Computing { current_stamp: s };
    let next = phase
        .try_advance(PhaseTriggerV1::NoFeasiblePath)
        .expect("Computing -> FallbackFull must succeed");
    assert_eq!(next, IncrementalRuntimePhaseV1::FallbackFull { previous_stamp: s });
}

#[test]
fn certified_to_committed_on_admission() {
    let s = stamp(1, 1);
    let pid = path_id(1);
    let phase = IncrementalRuntimePhaseV1::Certified {
        current_stamp: s,
        path_id: pid,
    };
    let next = phase
        .try_advance(PhaseTriggerV1::SinkAdmitted)
        .expect("Certified -> Committed must succeed");
    assert_eq!(next, IncrementalRuntimePhaseV1::Committed { current_stamp: s });
}

#[test]
fn committed_to_computing_on_next_stamp() {
    let s1 = stamp(5, 1);
    let s2 = stamp(6, 1);
    let phase = IncrementalRuntimePhaseV1::Committed { current_stamp: s1 };
    let next = phase
        .try_advance(PhaseTriggerV1::StampArrived(s2))
        .expect("Committed -> Computing with adjacent stamp must succeed");
    assert_eq!(next, IncrementalRuntimePhaseV1::Computing { current_stamp: s2 });
}

#[test]
fn committed_to_idle_on_epoch_reset() {
    let s = stamp(5, 1);
    let phase = IncrementalRuntimePhaseV1::Committed { current_stamp: s };
    let next = phase
        .try_advance(PhaseTriggerV1::EpochReset(epoch(2)))
        .expect("Committed -> Idle on epoch reset must succeed");
    assert_eq!(next, IncrementalRuntimePhaseV1::Idle);
}

#[test]
fn fallback_full_to_idle_after_reresolve() {
    let s = stamp(3, 1);
    let phase = IncrementalRuntimePhaseV1::FallbackFull { previous_stamp: s };
    let next = phase
        .try_advance(PhaseTriggerV1::EpochReset(epoch(2)))
        .expect("FallbackFull -> Idle must succeed");
    assert_eq!(next, IncrementalRuntimePhaseV1::Idle);
}

#[test]
fn failed_to_idle_only_on_epoch_reset() {
    let cause = IncrementalRuntimeErrorV1::MissingFeasiblePathCertificate;
    let phase = IncrementalRuntimePhaseV1::Failed { cause };
    let next = phase
        .try_advance(PhaseTriggerV1::EpochReset(epoch(2)))
        .expect("Failed -> Idle on epoch reset must succeed");
    assert_eq!(next, IncrementalRuntimePhaseV1::Idle);
}

#[test]
fn idle_to_committed_rejected() {
    let err = IncrementalRuntimePhaseV1::Idle
        .try_advance(PhaseTriggerV1::SinkAdmitted)
        .expect_err("Idle -> Committed must be rejected");
    assert!(matches!(
        err,
        IncrementalRuntimeErrorV1::InvalidPhaseTransition {
            from: IncrementalRuntimePhaseTagV1::Idle,
            attempted_to: IncrementalRuntimePhaseTagV1::Committed,
        }
    ));
}

#[test]
fn computing_to_idle_rejected() {
    let s = stamp(1, 1);
    let phase = IncrementalRuntimePhaseV1::Computing { current_stamp: s };
    let err = phase
        .try_advance(PhaseTriggerV1::EpochReset(epoch(1)))
        .expect_err("Computing -> Idle must be rejected");
    assert!(matches!(
        err,
        IncrementalRuntimeErrorV1::InvalidPhaseTransition {
            from: IncrementalRuntimePhaseTagV1::Computing,
            attempted_to: IncrementalRuntimePhaseTagV1::Idle,
        }
    ));
}

#[test]
fn certified_to_computing_rejected() {
    let s = stamp(1, 1);
    let pid = path_id(1);
    let phase = IncrementalRuntimePhaseV1::Certified {
        current_stamp: s,
        path_id: pid,
    };
    let err = phase
        .try_advance(PhaseTriggerV1::StampArrived(stamp(2, 1)))
        .expect_err("Certified -> Computing must be rejected");
    assert!(matches!(
        err,
        IncrementalRuntimeErrorV1::InvalidPhaseTransition {
            from: IncrementalRuntimePhaseTagV1::Certified,
            attempted_to: IncrementalRuntimePhaseTagV1::Computing,
        }
    ));
}

#[test]
fn failed_to_computing_rejected() {
    let cause = IncrementalRuntimeErrorV1::MissingFeasiblePathCertificate;
    let phase = IncrementalRuntimePhaseV1::Failed { cause };
    let err = phase
        .try_advance(PhaseTriggerV1::StampArrived(stamp(1, 1)))
        .expect_err("Failed -> Computing without epoch reset must be rejected");
    assert!(matches!(
        err,
        IncrementalRuntimeErrorV1::InvalidPhaseTransition {
            from: IncrementalRuntimePhaseTagV1::Failed,
            attempted_to: IncrementalRuntimePhaseTagV1::Computing,
        }
    ));
}

#[test]
fn stale_stamp_in_committed_rejected() {
    let s1 = stamp(5, 1);
    let s_skip = stamp(8, 1);
    let phase = IncrementalRuntimePhaseV1::Committed { current_stamp: s1 };
    let err = phase
        .try_advance(PhaseTriggerV1::StampArrived(s_skip))
        .expect_err("non-adjacent stamp must be rejected");
    assert!(matches!(
        err,
        IncrementalRuntimeErrorV1::StaleStamp {
            expected_sequence: 6,
            received_sequence: 8,
        }
    ));
}

#[test]
fn missing_path_id_in_certify_rejected() {
    let s = stamp(1, 1);
    let phase = IncrementalRuntimePhaseV1::Computing { current_stamp: s };
    let err = phase
        .try_advance(PhaseTriggerV1::SinkAdmitted)
        .expect_err("Computing -> SinkAdmitted must be rejected");
    assert!(matches!(
        err,
        IncrementalRuntimeErrorV1::InvalidPhaseTransition {
            from: IncrementalRuntimePhaseTagV1::Computing,
            attempted_to: IncrementalRuntimePhaseTagV1::Committed,
        }
    ));
}

#[test]
fn stale_epoch_in_computing_rejected() {
    let s = stamp(1, 1);
    let phase = IncrementalRuntimePhaseV1::Computing { current_stamp: s };
    let cause = IncrementalRuntimeErrorV1::StaleEpoch {
        expected: epoch(1),
        received: epoch(2),
    };
    let next = phase
        .try_advance(PhaseTriggerV1::Failure(cause))
        .expect("Computing -> Failed via Failure trigger must succeed");
    assert_eq!(next, IncrementalRuntimePhaseV1::Failed { cause });
}

#[test]
fn dispatch_advances_idle_to_computing() {
    let s1 = stamp(0, 1);
    let s2 = stamp(1, 1);
    let transition = StampTransitionV1::try_new(s1, s2).expect("test invariant: valid transition");
    let outcome = dispatch_stamp_transition(IncrementalRuntimePhaseV1::Idle, transition);
    assert!(matches!(outcome, TransitionDispatchOutcomeV1::Advanced(_)));
}

#[test]
fn dispatch_rejects_invalid_transition() {
    let failed = IncrementalRuntimePhaseV1::Failed {
        cause: IncrementalRuntimeErrorV1::MissingFeasiblePathCertificate,
    };
    let s_a = stamp(0, 1);
    let s_b = stamp(1, 1);
    let valid_transition = StampTransitionV1::try_new(s_a, s_b).expect("test invariant");
    let outcome = dispatch_stamp_transition(failed, valid_transition);
    assert!(matches!(
        outcome,
        TransitionDispatchOutcomeV1::Rejected(
            IncrementalRuntimeErrorV1::InvalidPhaseTransition { .. }
        )
    ));
}

#[test]
fn session_binding_maps_committed_to_committed_fallback() {
    let s = stamp(1, 1);
    let phase = IncrementalRuntimePhaseV1::Committed { current_stamp: s };
    assert_eq!(phase.tag(), IncrementalRuntimePhaseTagV1::Committed);
    assert_eq!(
        bind_incremental_transition_to_session(SessionDispositionKindV1::Violation, phase),
        AtomicSwitchFallbackV1::Committed
    );
}

#[test]
fn session_binding_maps_fallback_full_to_fallback_disposition() {
    let s = stamp(1, 1);
    let phase = IncrementalRuntimePhaseV1::FallbackFull { previous_stamp: s };
    assert_eq!(phase.tag(), IncrementalRuntimePhaseTagV1::FallbackFull);
    assert_eq!(
        bind_incremental_transition_to_session(SessionDispositionKindV1::Verified, phase),
        AtomicSwitchFallbackV1::FallbackToFull
    );
}

#[test]
fn session_binding_maps_other_phases_to_fallback() {
    let phase = IncrementalRuntimePhaseV1::Idle;
    assert_eq!(phase.tag(), IncrementalRuntimePhaseTagV1::Idle);
    assert_eq!(
        bind_incremental_transition_to_session(SessionDispositionKindV1::Unknown, phase),
        AtomicSwitchFallbackV1::FallbackToFull
    );
    assert_eq!(
        bind_incremental_transition_to_session(SessionDispositionKindV1::Verified, phase),
        AtomicSwitchFallbackV1::Committed
    );
}

#[test]
fn checked_successor_stops_at_the_last_sequence() {
    let e = epoch(3);
    assert_eq!(StampV1::new(7, e).checked_successor(), Some(StampV1::new(8, e)));
    assert_eq!(StampV1::new(u64::MAX, e).checked_successor(), None);
}

#[test]
fn dispatch_in_committed_accepts_only_the_adjacent_stamp() {
    let e = epoch(1);
    let phase = IncrementalRuntimePhaseV1::Committed {
        current_stamp: StampV1::new(4, e),
    };
    let adjacent = StampTransitionV1::try_new(StampV1::new(4, e), StampV1::new(5, e)).unwrap();
    assert_eq!(
        dispatch_stamp_transition(phase, adjacent),
        TransitionDispatchOutcomeV1::Advanced(IncrementalRuntimePhaseV1::Computing {
            current_stamp: StampV1::new(5, e),
        })
    );
    let later = StampTransitionV1::try_new(StampV1::new(6, e), StampV1::new(7, e)).unwrap();
    assert_eq!(
        dispatch_stamp_transition(phase, later),
        TransitionDispatchOutcomeV1::Rejected(IncrementalRuntimeErrorV1::StaleStamp {
            expected_sequence: 5,
            received_sequence: 7,
        })
    );
}

#[test]
fn error_messages_match_their_display_text() {
    assert_eq!(
        StampTransitionErrorV1::SequenceRegression {
            source_sequence: 10,
            destination_sequence: 9,
        }
        .message(),
        "stamp transition sequence regression: source=10, destination=9"
    );
    assert_eq!(
        StampTransitionErrorV1::EpochMismatch {
            source_epoch: 1,
            destination_epoch: 2,
        }
        .message(),
        "stamp transition epoch mismatch: source=1, destination=2"
    );
    assert_eq!(
        StampTransitionErrorV1::NonAdjacentTransition {
            source_sequence: u64::MAX,
        }
        .message(),
        "stamp transition non-adjacent: source sequence 18446744073709551615 has no successor"
    );
    assert_eq!(
        IncrementalRuntimeErrorV1::InvalidPhaseTransition {
            from: IncrementalRuntimePhaseTagV1::Idle,
            attempted_to: IncrementalRuntimePhaseTagV1::FallbackFull,
        }
        .message(),
        "invalid incremental runtime phase transition: Idle -> FallbackFull"
    );
    assert_eq!(
        IncrementalRuntimeErrorV1::StaleEpoch {
            expected: epoch(1),
            received: epoch(20),
        }
        .message(),
        "stale stamp epoch: expected StampBindingEpochV1(1), received StampBindingEpochV1(20)"
    );
    assert_eq!(
        IncrementalRuntimeErrorV1::StaleStamp {
            expected_sequence: 0,
            received_sequence: 107,
        }
        .message(),
        "stale stamp sequence: expected 0, received 107"
    );
    assert_eq!(
        IncrementalRuntimeErrorV1::MissingFeasiblePathCertificate.message(),
        "missing feasible path certificate for certification"
    );
}
