use labcolors_core::lcs_freeze::{AdmittedLcsIdentityV1, LCS_FREEZE_V1};
use labcolors_core::hex::Srgb8;
use labcolors_core::lcs_occurrence::{
    AdaptingLuminanceCdM2, AppearanceContextId, AppearanceContextSchemaReleaseId,
    BackgroundLuminanceRatio, ColorSignal, ColorimetricFrameId, ColorimetricTransformReleaseId,
    ModeledLcsOccurrenceV1, OutputProfileId, SurroundProfileId,
};

#[test]
fn output_profile_id_has_exactly_one_variant() {
    let variants: &[OutputProfileId] = &[OutputProfileId::Iec61966Srgb8D65V1];
    assert_eq!(variants.len(), 1);
    match OutputProfileId::Iec61966Srgb8D65V1 {
        OutputProfileId::Iec61966Srgb8D65V1 => {}
    }
}

#[test]
fn colorimetric_transform_release_id_has_exactly_one_variant() {
    let variants: &[ColorimetricTransformReleaseId] =
        &[ColorimetricTransformReleaseId::Iec61966Srgb8ToCie1931TwoDegreeXyzD65RelativeY1V1];
    assert_eq!(variants.len(), 1);
    match ColorimetricTransformReleaseId::Iec61966Srgb8ToCie1931TwoDegreeXyzD65RelativeY1V1 {
        ColorimetricTransformReleaseId::Iec61966Srgb8ToCie1931TwoDegreeXyzD65RelativeY1V1 => {}
    }
}

#[test]
fn certificate_is_singleton() {
    let a = LCS_FREEZE_V1;
    let b = LCS_FREEZE_V1;
    assert_eq!(a, b);
}

#[test]
fn modeled_occurrence_is_its_own_admitted_identity() {
    let context = AppearanceContextId::from_inputs(
        AppearanceContextSchemaReleaseId::Ciecam16ViewingInputsV1,
        ColorimetricFrameId::iec_srgb_d65_xyz_v1(),
        AdaptingLuminanceCdM2::try_new(64.0f64.to_bits()).unwrap(),
        BackgroundLuminanceRatio::try_new(0.2f64.to_bits()).unwrap(),
        SurroundProfileId::AverageV1,
    );
    let modeled = ModeledLcsOccurrenceV1::from_signal_in_context(
        ColorSignal::from_srgb8(Srgb8::new([1, 2, 3])),
        [0.1f64.to_bits(), 0.2f64.to_bits(), 0.3f64.to_bits()],
        context,
    )
    .unwrap();
    assert_eq!(modeled.as_modeled_v1(), modeled);
}
