use labcolors_core::hex::Srgb8;
use labcolors_core::lcs_occurrence::{
    derive_modeled_tristimulus_v1, AdaptingLuminanceCdM2, AppearanceContextFieldV1,
    AppearanceContextId, AppearanceContextSchemaReleaseId, AppearanceState,
    AppearanceStateDerivationErrorV1, AppearanceViewFieldV1, AppearanceViewReleaseIdV1,
    BackgroundLuminanceRatio, Cam16CorrelateBitsV1, ColorSignal, ColorimetricFrameId,
    ColorimetricFrameReleaseId, ColorimetricTransformReleaseId, HueAngle, HueState,
    LcsOccurrence, ModeledLcsOccurrenceFormationErrorV1, ModeledLcsOccurrenceV1,
    NumericDomainError, ObserverProfileId, OutputProfileId, ReferenceWhiteId,
    SurroundProfileId, TristimulusComponentV1, TristimulusDomainErrorV1, TristimulusSample,
    TristimulusScale, ADMITTED_SRGB8_TRISTIMULUS_BINDING_V1, CAM16_VIEW_RELEASE_V1,
    OKLAB_VIEW_RELEASE_V1,
};

fn b(v: f64) -> u64 {
    v.to_bits()
}

fn xyz(v: [f64; 3]) -> [u64; 3] {
    v.map(f64::to_bits)
}

fn relative() -> ColorimetricFrameId {
    ColorimetricFrameId::iec_srgb_d65_xyz_v1()
}

fn context(frame: ColorimetricFrameId, la: f64) -> AppearanceContextId {
    context_with_surround(frame, la, SurroundProfileId::AverageV1)
}

fn context_with_surround(
    frame: ColorimetricFrameId,
    la: f64,
    surround: SurroundProfileId,
) -> AppearanceContextId {
    AppearanceContextId::from_inputs(
        AppearanceContextSchemaReleaseId::Ciecam16ViewingInputsV1,
        frame,
        AdaptingLuminanceCdM2::try_new(b(la)).unwrap(),
        BackgroundLuminanceRatio::try_new(b(0.2)).unwrap(),
        surround,
    )
}

#[test]
fn xyz_and_context_numeric_admission_is_fail_closed() {
    let relative = relative();
    for v in [
        [f64::NAN, 0.0, 0.0],
        [0.0, f64::INFINITY, 0.0],
        [0.0, 0.0, -f64::MIN_POSITIVE],
    ] {
        assert!(TristimulusSample::try_from_registered_xyz(xyz(v), relative).is_err());
    }

    let zero_la = AdaptingLuminanceCdM2::try_new(b(0.0)).unwrap_err();
    assert_eq!(
        zero_la.field(),
        AppearanceContextFieldV1::AdaptingLuminanceCdM2
    );
    assert_eq!(zero_la.reason(), NumericDomainError::NotPositive);

    let zero_background = BackgroundLuminanceRatio::try_new(b(0.0)).unwrap_err();
    assert_eq!(
        zero_background.field(),
        AppearanceContextFieldV1::BackgroundLuminanceRatio,
    );
    assert_eq!(zero_background.reason(), NumericDomainError::NotPositive);

    let high_background = BackgroundLuminanceRatio::try_new(b(1.01)).unwrap_err();
    assert_eq!(
        high_background.field(),
        AppearanceContextFieldV1::BackgroundLuminanceRatio,
    );
    assert_eq!(high_background.reason(), NumericDomainError::AboveOne);

    for invalid in [f64::NAN, f64::INFINITY, -f64::MIN_POSITIVE, -0.0] {
        assert_eq!(
            AdaptingLuminanceCdM2::try_new(b(invalid)).unwrap_err().field(),
            AppearanceContextFieldV1::AdaptingLuminanceCdM2,
        );
        assert_eq!(
            BackgroundLuminanceRatio::try_new(b(invalid))
                .unwrap_err()
                .field(),
            AppearanceContextFieldV1::BackgroundLuminanceRatio,
        );
    }
}

#[test]
fn hue_algebra_cannot_encode_exact_absence_as_zero_degrees() {
    assert_ne!(
        HueState::UndefinedExact,
        HueState::Defined(HueAngle::new(b(0.0)).unwrap())
    );
}

#[test]
fn occurrence_identity_contains_only_sample_and_context() {
    let relative = relative();
    let sample = TristimulusSample::try_from_registered_xyz(xyz([0.1, 0.2, 0.3]), relative).unwrap();
    let occurrence = LcsOccurrence::in_context(sample, context(relative, 64.0)).unwrap();
    assert_eq!(occurrence.sample(), sample);
    assert_eq!(occurrence.context(), context(relative, 64.0));
}

#[test]
fn context_identity_changes_with_semantic_input_bits() {
    let relative = relative();
    assert_ne!(context(relative, 64.0), context(relative, 32.0));

    let changed_background = AppearanceContextId::from_inputs(
        AppearanceContextSchemaReleaseId::Ciecam16ViewingInputsV1,
        relative,
        AdaptingLuminanceCdM2::try_new(b(64.0)).unwrap(),
        BackgroundLuminanceRatio::try_new(b(0.3)).unwrap(),
        SurroundProfileId::AverageV1,
    );
    let changed_surround = AppearanceContextId::from_inputs(
        AppearanceContextSchemaReleaseId::Ciecam16ViewingInputsV1,
        relative,
        AdaptingLuminanceCdM2::try_new(b(64.0)).unwrap(),
        BackgroundLuminanceRatio::try_new(b(0.2)).unwrap(),
        SurroundProfileId::DimV1,
    );
    assert_ne!(context(relative, 64.0), changed_background);
    assert_ne!(context(relative, 64.0), changed_surround);
}

#[test]
fn hue_numeric_constructor_rejects_nonfinite_and_out_of_domain() {
    for invalid in [f64::NAN, f64::INFINITY, -0.01, 360.0] {
        assert!(HueAngle::new(b(invalid)).is_err());
    }
    assert_eq!(HueAngle::new(b(-0.0)).unwrap(), HueAngle::new(b(0.0)).unwrap());
}

#[test]
fn admitted_binding_is_one_closed_profile_transform_frame_tuple() {
    let binding = ADMITTED_SRGB8_TRISTIMULUS_BINDING_V1;
    assert_eq!(
        binding.signal_output_profile(),
        OutputProfileId::Iec61966Srgb8D65V1,
    );
    assert_eq!(
        binding.transform_release(),
        ColorimetricTransformReleaseId::Iec61966Srgb8ToCie1931TwoDegreeXyzD65RelativeY1V1,
    );
    assert_eq!(binding.result_frame(), relative());
    assert_eq!(
        binding.result_frame().observer(),
        ObserverProfileId::Cie1931TwoDegreeV1,
    );
    assert_eq!(
        binding.result_frame().reference_white(),
        ReferenceWhiteId::Iec61966D65ChromaticityV1,
    );
    assert_eq!(binding.result_frame().scale(), TristimulusScale::RelativeY1);
    assert_eq!(
        binding.result_frame().release(),
        ColorimetricFrameReleaseId::XyzV1,
    );
}

#[test]
fn raw_xyz_admission_is_test_only_component_qualified_and_fail_closed() {
    let frame = relative();
    for (v, component, reason) in [
        (
            [f64::NAN, 0.0, 0.0],
            TristimulusComponentV1::X,
            NumericDomainError::NonFinite,
        ),
        (
            [0.0, f64::INFINITY, 0.0],
            TristimulusComponentV1::Y,
            NumericDomainError::NonFinite,
        ),
        (
            [0.0, 0.0, -f64::MIN_POSITIVE],
            TristimulusComponentV1::Z,
            NumericDomainError::Negative,
        ),
    ] {
        let error = TristimulusSample::try_from_registered_xyz(xyz(v), frame).unwrap_err();
        assert_eq!(error.component(), component);
        assert_eq!(error.reason(), reason);
    }

    let admitted = TristimulusSample::try_from_registered_xyz(xyz([-0.0, 0.5, 1.25]), frame).unwrap();
    assert_eq!(admitted.xyz_bits()[0], 0.0_f64.to_bits());
    assert_eq!(f64::from_bits(admitted.xyz_bits()[2]), 1.25);
}

#[test]
fn appearance_context_identity_exposes_only_semantic_inputs() {
    let context = context(relative(), 64.0);
    assert_eq!(
        context.schema_release(),
        AppearanceContextSchemaReleaseId::Ciecam16ViewingInputsV1,
    );
    assert_eq!(context.frame(), relative());
    assert_eq!(f64::from_bits(context.adapting_luminance_cd_m2_bits()), 64.0);
    assert_eq!(f64::from_bits(context.background_luminance_ratio_bits()), 0.2);
    assert_eq!(context.surround_profile(), SurroundProfileId::AverageV1);
}

fn zero_correlates() -> Cam16CorrelateBitsV1 {
    Cam16CorrelateBitsV1 {
        j: 0,
        q: 0,
        c: 0,
        m: 0,
        s: 0,
        h: b(f64::NAN),
    }
}

#[test]
fn zero_colourfulness_yields_exactly_undefined_hue() {
    let occurrence = LcsOccurrence::in_context(
        TristimulusSample::try_from_registered_xyz([0; 3], relative()).unwrap(),
        context(relative(), 64.0),
    )
    .unwrap();
    let state = AppearanceState::derive_v1(occurrence, [0; 3], zero_correlates()).unwrap();
    assert_eq!(
        [state.oklab().l_bits(), state.oklab().a_bits(), state.oklab().b_bits()],
        [0; 3]
    );
    assert_eq!(state.cam16().m_bits(), 0);
    assert_eq!(state.cam16().hue(), HueState::UndefinedExact);
    assert_eq!(state.occurrence(), occurrence);
}

#[test]
fn views_report_the_first_non_finite_coordinate_with_release_and_field() {
    let occurrence = LcsOccurrence::in_context(
        TristimulusSample::try_from_registered_xyz(xyz([0.1, 0.2, 0.3]), relative()).unwrap(),
        context(relative(), 64.0),
    )
    .unwrap();
    assert_eq!(
        AppearanceState::derive_v1(occurrence, xyz([f64::INFINITY, 0.0, 0.0]), zero_correlates())
            .unwrap_err(),
        AppearanceStateDerivationErrorV1::NumericDomain {
            release: AppearanceViewReleaseIdV1::Oklab(OKLAB_VIEW_RELEASE_V1),
            field: AppearanceViewFieldV1::OklabL,
            reason: NumericDomainError::NonFinite,
        },
    );
    let mut correlates = zero_correlates();
    correlates.m = b(3.0);
    correlates.h = b(400.0);
    assert_eq!(
        AppearanceState::derive_v1(occurrence, xyz([0.5, -0.1, 0.1]), correlates).unwrap_err(),
        AppearanceStateDerivationErrorV1::NumericDomain {
            release: AppearanceViewReleaseIdV1::Cam16(CAM16_VIEW_RELEASE_V1),
            field: AppearanceViewFieldV1::Cam16Hue,
            reason: NumericDomainError::HueOutOfRange,
        },
    );
    correlates.h = b(12.5);
    let state = AppearanceState::derive_v1(occurrence, xyz([0.5, -0.1, 0.1]), correlates).unwrap();
    assert_eq!(
        state.cam16().hue(),
        HueState::Defined(HueAngle::new(b(12.5)).unwrap())
    );
    assert_eq!(f64::from_bits(state.oklab().a_bits()), -0.1);
}

#[test]
fn modeled_occurrence_binding_checks_the_replay() {
    let signal = ColorSignal::from_srgb8(Srgb8::new([0x0A, 0x0B, 0x80]));
    let lowered = xyz([0.1, 0.2, 0.3]);
    let derivation = derive_modeled_tristimulus_v1(signal, lowered).unwrap();
    assert_eq!(derivation.provenance().source_signal(), signal);
    assert_eq!(
        derivation.provenance().binding(),
        ADMITTED_SRGB8_TRISTIMULUS_BINDING_V1
    );
    let replayed = derivation.replay(lowered);
    assert_eq!(replayed, Ok(derivation.sample()));

    let occurrence =
        LcsOccurrence::in_context(derivation.sample(), context(relative(), 64.0)).unwrap();
    let modeled = ModeledLcsOccurrenceV1::bind(occurrence, derivation, replayed).unwrap();
    assert_eq!(modeled.signal(), signal);
    assert_eq!(modeled.verify(replayed), Ok(()));

    let other = derivation.replay(xyz([0.1, 0.2, 0.4])).unwrap();
    assert_eq!(
        ModeledLcsOccurrenceV1::bind(occurrence, derivation, Ok(other)),
        Err(ModeledLcsOccurrenceFormationErrorV1::RecordedSampleDoesNotReplay {
            recorded: derivation.sample(),
            replayed: other,
        })
    );
    let failure = TristimulusDomainErrorV1 {
        component: TristimulusComponentV1::Y,
        reason: NumericDomainError::NonFinite,
    };
    assert_eq!(
        modeled.verify(Err(failure)),
        Err(ModeledLcsOccurrenceFormationErrorV1::ProvenanceReplayFailed(failure))
    );

    let unrelated = LcsOccurrence::in_context(other, context(relative(), 64.0)).unwrap();
    assert_eq!(
        ModeledLcsOccurrenceV1::bind(unrelated, derivation, replayed),
        Err(ModeledLcsOccurrenceFormationErrorV1::OccurrenceSampleMismatch {
            occurrence: other,
            modeled: derivation.sample(),
        })
    );
}

#[test]
fn modeled_occurrence_from_signal_reports_refused_lowering() {
    let signal = ColorSignal::from_srgb8(Srgb8::new([1, 2, 3]));
    assert_eq!(
        ModeledLcsOccurrenceV1::from_signal_in_context(
            signal,
            xyz([0.1, f64::NAN, 0.3]),
            context(relative(), 64.0)
        ),
        Err(ModeledLcsOccurrenceFormationErrorV1::Tristimulus(
            TristimulusDomainErrorV1 {
                component: TristimulusComponentV1::Y,
                reason: NumericDomainError::NonFinite,
            }
        ))
    );
    let modeled = ModeledLcsOccurrenceV1::from_signal_in_context(
        signal,
        xyz([0.1, 0.2, 0.3]),
        context(relative(), 64.0),
    )
    .unwrap();
    assert_eq!(modeled.occurrence().sample(), modeled.derivation().sample());
    assert_eq!(modeled.occurrence().context(), context(relative(), 64.0));
}
