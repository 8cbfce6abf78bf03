use labcolors_core::field_effect::{
    FieldCertificateDigestV1, FieldOperatorKindV1, FieldRasterDigestV1, FieldRequestDigestV1,
};
use labcolors_core::field_technical_quality::{
    FieldCompositionLawClassV1, FieldCompositionLawProofV1, FieldDeclaredRestorationPolicyV1,
    FieldGamutContainmentProofV1, FieldTechnicalQualityV1,
};
use labcolors_core::sha256::Hasher;

fn sample_request_digest() -> FieldRequestDigestV1 {
    FieldRequestDigestV1::from_bytes([1u8; 32])
}

fn sample_output_digest() -> FieldRasterDigestV1 {
    FieldRasterDigestV1::from_bytes([2u8; 32])
}

fn sample_certificate_digest() -> FieldCertificateDigestV1 {
    FieldCertificateDigestV1::from_bytes([3u8; 32])
}

#[test]
fn gamut_containment_proof_deterministic() {
    let a = FieldGamutContainmentProofV1::new(sample_output_digest(), 1024);
    let b = FieldGamutContainmentProofV1::new(sample_output_digest(), 1024);
    assert_eq!(a, b);
    assert_eq!(a.digest(), b.digest());
}

#[test]
fn gamut_containment_proof_varies_with_pixel_count() {
    let a = FieldGamutContainmentProofV1::new(sample_output_digest(), 1024);
    let b = FieldGamutContainmentProofV1::new(sample_output_digest(), 2048);
    assert_ne!(a, b);
    assert_ne!(a.digest(), b.digest());
}

#[test]
fn gamut_containment_proof_varies_with_output_digest() {
    let other = FieldRasterDigestV1::from_bytes([9u8; 32]);
    let a = FieldGamutContainmentProofV1::new(sample_output_digest(), 1024);
    let b = FieldGamutContainmentProofV1::new(other, 1024);
    assert_ne!(a, b);
}

#[test]
fn composition_law_proof_deterministic() {
    let a = FieldCompositionLawProofV1::new(
        FieldOperatorKindV1::GaussianBlurSeparableQ32V1,
        sample_request_digest(),
        sample_output_digest(),
    );
    let b = FieldCompositionLawProofV1::new(
        FieldOperatorKindV1::GaussianBlurSeparableQ32V1,
        sample_request_digest(),
        sample_output_digest(),
    );
    assert_eq!(a, b);
    assert_eq!(a.digest(), b.digest());
}

#[test]
fn composition_law_proof_varies_by_operator() {
    let blur = FieldCompositionLawProofV1::new(
        FieldOperatorKindV1::GaussianBlurSeparableQ32V1,
        sample_request_digest(),
        sample_output_digest(),
    );
    let source_over = FieldCompositionLawProofV1::new(
        FieldOperatorKindV1::PremultipliedSourceOverV1,
        sample_request_digest(),
        sample_output_digest(),
    );
    assert_ne!(blur, source_over);
    assert_ne!(blur.law_class(), source_over.law_class());
}

#[test]
fn composition_law_class_maps_correctly() {
    assert_eq!(
        FieldCompositionLawClassV1::from_operator_kind(
            FieldOperatorKindV1::GaussianBlurSeparableQ32V1
        ),
        FieldCompositionLawClassV1::GaussianBlurSeparableQ32
    );
    assert_eq!(
        FieldCompositionLawClassV1::from_operator_kind(
            FieldOperatorKindV1::PremultipliedSourceOverV1
        ),
        FieldCompositionLawClassV1::PremultipliedSourceOver
    );
    assert_eq!(
        FieldCompositionLawClassV1::from_operator_kind(
            FieldOperatorKindV1::EncodedSrgb8ScreenOpaqueBackdropV1
        ),
        FieldCompositionLawClassV1::EncodedSrgb8ScreenOpaqueBackdrop
    );
    assert_eq!(
        FieldCompositionLawClassV1::from_operator_kind(FieldOperatorKindV1::PorterDuffLighterV1),
        FieldCompositionLawClassV1::PorterDuffLighter
    );
}

#[test]
fn declared_restoration_policy_deterministic() {
    let a = FieldDeclaredRestorationPolicyV1::new(
        sample_certificate_digest(),
        FieldOperatorKindV1::PremultipliedSourceOverV1,
    );
    let b = FieldDeclaredRestorationPolicyV1::new(
        sample_certificate_digest(),
        FieldOperatorKindV1::PremultipliedSourceOverV1,
    );
    assert_eq!(a, b);
    assert_eq!(a.digest(), b.digest());
}

#[test]
fn declared_restoration_policy_varies_by_operator() {
    let a = FieldDeclaredRestorationPolicyV1::new(
        sample_certificate_digest(),
        FieldOperatorKindV1::PremultipliedSourceOverV1,
    );
    let b = FieldDeclaredRestorationPolicyV1::new(
        sample_certificate_digest(),
        FieldOperatorKindV1::PorterDuffLighterV1,
    );
    assert_ne!(a, b);
}

#[test]
fn declared_restoration_policy_varies_by_certificate() {
    let other_cert = FieldCertificateDigestV1::from_bytes([7u8; 32]);
    let a = FieldDeclaredRestorationPolicyV1::new(
        sample_certificate_digest(),
        FieldOperatorKindV1::PremultipliedSourceOverV1,
    );
    let b = FieldDeclaredRestorationPolicyV1::new(
        other_cert,
        FieldOperatorKindV1::PremultipliedSourceOverV1,
    );
    assert_ne!(a, b);
}

#[test]
fn technical_quality_deterministic() {
    let a = FieldTechnicalQualityV1::new(
        FieldOperatorKindV1::GaussianBlurSeparableQ32V1,
        sample_request_digest(),
        sample_output_digest(),
        512,
    );
    let b = FieldTechnicalQualityV1::new(
        FieldOperatorKindV1::GaussianBlurSeparableQ32V1,
        sample_request_digest(),
        sample_output_digest(),
        512,
    );
    assert_eq!(a, b);
    assert_eq!(a.digest(), b.digest());
}

#[test]
fn technical_quality_varies_by_operator() {
    let a = FieldTechnicalQualityV1::new(
        FieldOperatorKindV1::GaussianBlurSeparableQ32V1,
        sample_request_digest(),
        sample_output_digest(),
        512,
    );
    let b = FieldTechnicalQualityV1::new(
        FieldOperatorKindV1::PremultipliedSourceOverV1,
        sample_request_digest(),
        sample_output_digest(),
        512,
    );
    assert_ne!(a, b);
    assert_ne!(a.digest(), b.digest());
}

#[test]
fn technical_quality_varies_by_pixel_count() {
    let a = FieldTechnicalQualityV1::new(
        FieldOperatorKindV1::GaussianBlurSeparableQ32V1,
        sample_request_digest(),
        sample_output_digest(),
        512,
    );
    let b = FieldTechnicalQualityV1::new(
        FieldOperatorKindV1::GaussianBlurSeparableQ32V1,
        sample_request_digest(),
        sample_output_digest(),
        1024,
    );
    assert_ne!(a, b);
}

#[test]
fn technical_quality_contains_consistent_sub_proofs() {
    let tq = FieldTechnicalQualityV1::new(
        FieldOperatorKindV1::PremultipliedSourceOverV1,
        sample_request_digest(),
        sample_output_digest(),
        256,
    );
    assert_eq!(
        tq.composition_law_proof().request_digest(),
        tq.request_digest()
    );
    assert_eq!(
        tq.composition_law_proof().output_digest(),
        tq.output_digest()
    );
    assert_eq!(
        tq.gamut_containment_proof().output_digest(),
        tq.output_digest()
    );
    assert_eq!(tq.gamut_containment_proof().pixel_count(), 256);
    assert_eq!(
        tq.composition_law_proof().law_class(),
        FieldCompositionLawClassV1::PremultipliedSourceOver
    );
}

#[test]
fn technical_quality_equality_implies_digest_equality() {
    let a = FieldTechnicalQualityV1::new(
        FieldOperatorKindV1::PorterDuffLighterV1,
        sample_request_digest(),
        sample_output_digest(),
        100,
    );
    let b = FieldTechnicalQualityV1::new(
        FieldOperatorKindV1::PorterDuffLighterV1,
        sample_request_digest(),
        sample_output_digest(),
        100,
    );
    assert_eq!(a, b);
    assert_eq!(a.digest(), b.digest());
    assert_eq!(a.composition_law_proof(), b.composition_law_proof());
    assert_eq!(a.gamut_containment_proof(), b.gamut_containment_proof());
}

#[test]
fn gamut_digest_is_sha256_of_tag_output_and_big_endian_count() {
    let proof = FieldGamutContainmentProofV1::new(sample_output_digest(), 0x0102_0304_0506_0708);
    let mut hasher = Hasher::new();
    hasher.update("FieldGamutContainmentProofV1".as_bytes());
    hasher.update(&[2u8; 32]);
    hasher.update(&[1, 2, 3, 4, 5, 6, 7, 8]);
    assert_eq!(proof.digest().as_bytes(), hasher.finalize());
}

#[test]
fn composition_law_digest_hashes_operator_and_class_codes() {
    let proof = FieldCompositionLawProofV1::new(
        FieldOperatorKindV1::EncodedSrgb8ScreenOpaqueBackdropV1,
        sample_request_digest(),
        sample_output_digest(),
    );
    let mut hasher = Hasher::new();
    hasher.update("FieldCompositionLawProofV1".as_bytes());
    hasher.update(&[3, 3]);
    hasher.update(&[1u8; 32]);
    hasher.update(&[2u8; 32]);
    assert_eq!(proof.digest().as_bytes(), hasher.finalize());
}
