use labcolors_core::field_effect::{
    FieldCertificateDigestV1, FieldFootprintV1, FieldOperatorInstanceIdV1, FieldRasterDigestV1,
    FieldRectV1, FieldWholeRasterCertificateV1,
};
use labcolors_core::field_presentation::{
    CounterfactualSupportV1, ExactFinalOwnedBundleDomainV1, FieldFootprintClassV1,
    FieldPresentationCertificateV1, FieldPresentationRootV1, OwnedCompositionReferenceV1,
    PresentationRootId,
};

#[test]
fn test_footprint_class_exact_permits_ownership() {
    assert!(FieldFootprintClassV1::Exact.permits_exact_ownership());
}

#[test]
fn test_footprint_class_conservative_blocks_ownership() {
    assert!(!FieldFootprintClassV1::Conservative.permits_exact_ownership());
}

#[test]
fn test_bundle_domain_try_new_rejects_conservative() {
    let root = FieldPresentationRootV1::new(
        PresentationRootId::new(0),
        FieldOperatorInstanceIdV1::new(0),
        FieldCertificateDigestV1::new(0),
    );
    let result = ExactFinalOwnedBundleDomainV1::try_new(
        root,
        Box::new([]),
        FieldCertificateDigestV1::new(0),
        FieldFootprintClassV1::Conservative,
    );
    assert!(
        result.is_none(),
        "Conservative footprint must not produce ExactFinalOwnedBundleDomainV1"
    );
}

#[test]
fn test_bundle_domain_try_new_accepts_exact() {
    let root = FieldPresentationRootV1::new(
        PresentationRootId::new(0),
        FieldOperatorInstanceIdV1::new(0),
        FieldCertificateDigestV1::new(0),
    );
    let result = ExactFinalOwnedBundleDomainV1::try_new(
        root,
        Box::new([]),
        FieldCertificateDigestV1::new(0),
        FieldFootprintClassV1::Exact,
    );
    assert!(
        result.is_some(),
        "Exact footprint must produce ExactFinalOwnedBundleDomainV1"
    );
}

#[test]
fn test_final_owned_always_reports_exact_footprint_class() {
    let certificate = FieldWholeRasterCertificateV1::new(FieldCertificateDigestV1::new(4));
    let root = FieldPresentationRootV1::new(
        PresentationRootId::new(1),
        FieldOperatorInstanceIdV1::new(2),
        FieldCertificateDigestV1::new(3),
    );
    let bundle = ExactFinalOwnedBundleDomainV1::try_new(
        root,
        Box::new([certificate]),
        FieldCertificateDigestV1::new(5),
        FieldFootprintClassV1::Exact,
    )
    .unwrap();
    assert_eq!(bundle.footprint_class(), FieldFootprintClassV1::Exact);
    let reference = OwnedCompositionReferenceV1::new(
        certificate,
        FieldCertificateDigestV1::new(6),
        FieldFootprintClassV1::Exact,
    );
    let counterfactual = CounterfactualSupportV1::new(
        reference,
        FieldRasterDigestV1::from_bytes([7; 32]),
        FieldCertificateDigestV1::new(8),
    );
    let owned = FieldPresentationCertificateV1::final_owned(bundle, counterfactual);
    assert_eq!(owned.footprint_class(), FieldFootprintClassV1::Exact);
    assert_eq!(owned.source_digest(), FieldCertificateDigestV1::new(5));
}

#[test]
fn test_counterfactual_pairs_with_reference() {
    let reference = OwnedCompositionReferenceV1::new(
        FieldWholeRasterCertificateV1::new(FieldCertificateDigestV1::new(1)),
        FieldCertificateDigestV1::new(2),
        FieldFootprintClassV1::Conservative,
    );
    let counterfactual = CounterfactualSupportV1::new(
        reference,
        FieldRasterDigestV1::from_bytes([3; 32]),
        FieldCertificateDigestV1::new(4),
    );
    assert_eq!(counterfactual.reference(), reference);
    assert_eq!(
        counterfactual.reference().source_certificate().digest(),
        FieldCertificateDigestV1::new(1)
    );
}

#[test]
fn footprint_class_is_exact_only_for_equal_regions() {
    let rect = FieldRectV1::new(0, 0, 8, 8);
    let wider = FieldRectV1::new(0, 0, 9, 8);
    assert_eq!(
        FieldFootprintClassV1::from_footprint(FieldFootprintV1::new(rect, rect)),
        FieldFootprintClassV1::Exact
    );
    assert_eq!(
        FieldFootprintClassV1::from_footprint(FieldFootprintV1::new(rect, wider)),
        FieldFootprintClassV1::Conservative
    );
}

#[test]
fn representation_and_contribution_report_their_source() {
    let source = FieldWholeRasterCertificateV1::new(FieldCertificateDigestV1::new(9));
    let representation =
        FieldPresentationCertificateV1::representation(source, FieldFootprintClassV1::Conservative);
    assert_eq!(representation.source_digest(), FieldCertificateDigestV1::new(9));
    assert_eq!(
        representation.footprint_class(),
        FieldFootprintClassV1::Conservative
    );
    let contribution = FieldPresentationCertificateV1::contribution(
        source,
        FieldFootprintClassV1::Exact,
        FieldCertificateDigestV1::new(1),
    );
    assert_eq!(contribution.source_digest(), FieldCertificateDigestV1::new(9));
    assert_eq!(contribution.footprint_class(), FieldFootprintClassV1::Exact);
}
