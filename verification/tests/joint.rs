use labcolors_core::joint_preflight::{checked_joint_cardinality, JointReportErrorV1};
use labcolors_core::joint::{
    admit_finite_joint_order_v1, compile_finite_joint_order_v1,
    BoundFiniteSelectionReleaseV1, BoundFiniteTargetPreferenceV1, FiniteDomainOrdinalV1,
    FiniteJointCompilationErrorV1, FiniteJointOrderAdmissionErrorV1, FiniteJointOrderErrorV1,
    NonEmptyFiniteDomainCardinalitiesV1,
};

fn indices(order: &labcolors_core::joint::AdmittedFiniteJointOrderV1) -> Vec<Vec<usize>> {
    order
        .tuples()
        .iter()
        .map(|row| row.iter().map(|v| v.index()).collect())
        .collect()
}

#[test]
fn all_two_by_two_sequences_preserve_complete_authored_policy() {
    let lengths = NonEmptyFiniteDomainCardinalitiesV1::new(2, vec![2]);
    let mut accepted = 0;
    for encoding in 0_u16..256 {
        let input: [[usize; 2]; 4] = core::array::from_fn(|i| {
            [
                usize::from((encoding >> (2 * i)) & 1),
                usize::from((encoding >> (2 * i + 1)) & 1),
            ]
        });
        let valid = (0..4).all(|i| (i + 1..4).all(|j| input[i] != input[j]));
        let tuples = input
            .iter()
            .map(|row| {
                row.iter()
                    .copied()
                    .map(FiniteDomainOrdinalV1::new)
                    .collect()
            })
            .collect();
        let result = admit_finite_joint_order_v1(&lengths, tuples);
        assert_eq!(result.is_ok(), valid, "input={input:?}");
        if let Ok(order) = result {
            accepted += 1;
            assert_eq!(
                indices(&order),
                input.iter().map(|row| row.to_vec()).collect::<Vec<_>>()
            );
        }
    }
    assert_eq!(accepted, 24);
}

#[test]
fn every_small_shape_failure_is_typed_before_runtime() {
    let lengths = NonEmptyFiniteDomainCardinalitiesV1::new(2, Vec::new());
    for count in 0..4 {
        for arity in 0..3 {
            let tuples = (0..count)
                .map(|_| vec![FiniteDomainOrdinalV1::new(0); arity])
                .collect();
            let result = admit_finite_joint_order_v1(&lengths, tuples);
            let expected = if count == 0 {
                FiniteJointOrderErrorV1::EmptyOrder
            } else if count != 2 {
                FiniteJointOrderErrorV1::IncompleteOrder {
                    expected: 2,
                    actual: count,
                }
            } else if arity != 1 {
                FiniteJointOrderErrorV1::TupleArity {
                    tuple: 0,
                    expected: 1,
                    actual: arity,
                }
            } else {
                FiniteJointOrderErrorV1::DuplicateTuple {
                    first: 0,
                    duplicate: 1,
                }
            };
            assert_eq!(
                result,
                Err(FiniteJointOrderAdmissionErrorV1::Authored(expected))
            );
        }
    }
}

#[test]
fn cardinality_overflow_is_rejected_by_preflight() {
    assert_eq!(
        checked_joint_cardinality(usize::MAX, 2, 1),
        Err(JointReportErrorV1::ResourceExhausted)
    );
    assert_eq!(
        checked_joint_cardinality(usize::MAX / 2 + 1, 2, 2),
        Err(JointReportErrorV1::ResourceExhausted)
    );
}

#[test]
fn preflight_cardinality_is_the_exact_product() {
    assert_eq!(checked_joint_cardinality(3, 4, 5), Ok(60));
    assert_eq!(checked_joint_cardinality(usize::MAX, 0, 7), Ok(0));
    assert_eq!(checked_joint_cardinality(usize::MAX, 1, 1), Ok(usize::MAX));
}

#[test]
fn compiler_materializes_objective_order_not_dimension_order() {
    let domains = NonEmptyFiniteDomainCardinalitiesV1::new(2, vec![2]);
    let release = BoundFiniteSelectionReleaseV1::new(
        BoundFiniteTargetPreferenceV1::new(
            1,
            vec![FiniteDomainOrdinalV1::new(1), FiniteDomainOrdinalV1::new(0)],
        ),
        vec![BoundFiniteTargetPreferenceV1::new(
            0,
            vec![FiniteDomainOrdinalV1::new(0), FiniteDomainOrdinalV1::new(1)],
        )],
    );

    let tuples = indices(&compile_finite_joint_order_v1(&domains, &release).unwrap());

    assert_eq!(tuples, [[0, 1], [1, 1], [0, 0], [1, 0]]);
}

#[test]
fn cardinality_overflow_is_typed_before_joint_state_allocation() {
    let dimension_count = usize::BITS as usize;
    let domains = NonEmptyFiniteDomainCardinalitiesV1::new(2, vec![2; dimension_count - 1]);
    let objectives = (0..dimension_count)
        .map(|dimension| {
            BoundFiniteTargetPreferenceV1::new(
                dimension,
                vec![FiniteDomainOrdinalV1::new(0), FiniteDomainOrdinalV1::new(1)],
            )
        })
        .collect::<Vec<_>>();
    let release = BoundFiniteSelectionReleaseV1::new(objectives[0].clone(), objectives[1..].to_vec());

    assert_eq!(
        compile_finite_joint_order_v1(&domains, &release),
        Err(FiniteJointCompilationErrorV1::CardinalityOverflow)
    );
}

#[test]
fn unbound_release_is_an_internal_invariant_failure() {
    let domains = NonEmptyFiniteDomainCardinalitiesV1::new(2, vec![2]);
    let release = BoundFiniteSelectionReleaseV1::new(
        BoundFiniteTargetPreferenceV1::new(
            0,
            vec![FiniteDomainOrdinalV1::new(0), FiniteDomainOrdinalV1::new(1)],
        ),
        Vec::new(),
    );
    assert_eq!(
        compile_finite_joint_order_v1(&domains, &release),
        Err(FiniteJointCompilationErrorV1::InternalInvariant)
    );
}

#[test]
fn out_of_range_ordinal_is_named_with_tuple_and_dimension() {
    let lengths = NonEmptyFiniteDomainCardinalitiesV1::new(2, Vec::new());
    let tuples = vec![
        vec![FiniteDomainOrdinalV1::new(0)],
        vec![FiniteDomainOrdinalV1::new(5)],
    ];
    assert_eq!(
        admit_finite_joint_order_v1(&lengths, tuples),
        Err(FiniteJointOrderAdmissionErrorV1::Authored(
            FiniteJointOrderErrorV1::OrdinalOutOfRange {
                tuple: 1,
                dimension: 0,
                ordinal: 5,
                cardinality: 2,
            }
        ))
    );
}

#[test]
fn doubling_overflow_is_reported_before_an_empty_order() {
    let lengths = NonEmptyFiniteDomainCardinalitiesV1::new(usize::MAX / 2 + 1, vec![2]);
    assert_eq!(
        admit_finite_joint_order_v1(&lengths, Vec::new()),
        Err(FiniteJointOrderAdmissionErrorV1::Authored(
            FiniteJointOrderErrorV1::CardinalityOverflow
        ))
    );
    let lengths = NonEmptyFiniteDomainCardinalitiesV1::new(usize::MAX / 2, vec![2]);
    assert_eq!(
        admit_finite_joint_order_v1(&lengths, Vec::new()),
        Err(FiniteJointOrderAdmissionErrorV1::Authored(
            FiniteJointOrderErrorV1::EmptyOrder
        ))
    );
}

#[test]
fn compiled_orders_are_admitted_verbatim() {
    let domains = NonEmptyFiniteDomainCardinalitiesV1::new(2, vec![3]);
    let release = BoundFiniteSelectionReleaseV1::new(
        BoundFiniteTargetPreferenceV1::new(
            1,
            vec![
                FiniteDomainOrdinalV1::new(2),
                FiniteDomainOrdinalV1::new(0),
                FiniteDomainOrdinalV1::new(1),
            ],
        ),
        vec![BoundFiniteTargetPreferenceV1::new(
            0,
            vec![FiniteDomainOrdinalV1::new(1), FiniteDomainOrdinalV1::new(0)],
        )],
    );
    let compiled = compile_finite_joint_order_v1(&domains, &release).unwrap();
    assert_eq!(compiled.state_count(), 6);
    let tuples = compiled.tuples().clone();
    let admitted = admit_finite_joint_order_v1(&domains, tuples).unwrap();
    assert_eq!(indices(&admitted), indices(&compiled));
    assert_eq!(
        indices(&compiled),
        [[1, 2], [0, 2], [1, 0], [0, 0], [1, 1], [0, 1]]
    );
}
