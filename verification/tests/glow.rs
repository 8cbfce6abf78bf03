use labcolors_core::glow::{
    glow_source_halo_and_neutrality, legacy_selection_finish, legacy_selection_step,
    GlowDecisionOutcomeV1, GlowLegacyRefusalV1, LegacySelectionV1,
};
use labcolors_core::glow_stream::QuantisedCompositeV1;
use labcolors_core::hex::Srgb8;
use labcolors_core::glow::{
    boundary_seed_bits, decide_screen_point_stable_v1, screen_point_is_exact_noop,
    GlowCompositeGuaranteeV1, GlowCompositeProfileV1, GlowConstraintLayer, GlowDecisionProfileV1,
    GlowDiagnosticProfileV1, GlowLayerRecipeProfileV1, GlowStableDecisionV1, GlowStableRefusalV1,
    GlowStep,
    GlowTargetStatus, EXACT_NOOP_ALPHA_BITS,
};
use labcolors_core::numerics::{NumericalCompatibilityReleaseIdV1, NumericalExecutionModeV1};

#[test]
fn status_and_recipe_keys_preserve_their_provenance() {
    assert_eq!(
        GlowTargetStatus::ExactNoopUnreachable.key(),
        "exact-noop-unreachable"
    );
    assert_eq!(GlowTargetStatus::LegacyReached.key(), "legacy-reached");
    assert_eq!(
        GlowTargetStatus::LegacyUnreachable.key(),
        "legacy-unreachable"
    );
    assert_eq!(
        GlowLayerRecipeProfileV1::Cam16JPrimeOklabCuspV1.key(),
        "cam16-jprime-oklab-cusp-v1"
    );
}

#[test]
fn rational_seed_is_a_stable_performance_hint_not_a_state_definition() {
    for (glow, background, next_value, expected_bits) in [
        (1, 1, 2, 0x3fe0_1020_4081_0204),
        (2, 128, 129, 0x3fe0_1020_4081_0204),
        (33, 131, 132, 0x3f9f_e7f9_fe7f_9fe8),
        (11, 0, 8, 0x3fe5_d174_5d17_45d1),
        (255, 0, 255, 0x3fef_efef_efef_eff0),
    ] {
        assert_eq!(
            boundary_seed_bits(glow, background, next_value),
            expected_bits,
            "glow={glow}, background={background}, next={next_value}",
        );
    }
}

#[test]
fn boundary_seed_matches_binary64_division_everywhere() {
    for glow in [1u8, 2, 7, 64, 200, 255] {
        for background in [0u8, 1, 77, 128, 254] {
            for next_value in [0u8, 1, 2, 100, 129, 200, 255] {
                let numerator = (f64::from(next_value) - f64::from(background) - 0.5) * 255.0;
                let denominator = f64::from(glow) * (255.0 - f64::from(background));
                let expected = (numerator / denominator).clamp(0.0, 1.0).to_bits();
                assert_eq!(
                    boundary_seed_bits(glow, background, next_value),
                    expected,
                    "glow={glow}, background={background}, next={next_value}",
                );
            }
        }
    }
}

#[test]
fn boundary_seed_clamps_at_both_ends() {
    assert_eq!(boundary_seed_bits(10, 100, 100), 0);
    assert_eq!(boundary_seed_bits(1, 0, 255), 1.0f64.to_bits());
    assert_eq!(boundary_seed_bits(0, 10, 20), 1.0f64.to_bits());
}

#[test]
fn wire_keys_are_stable() {
    assert_eq!(
        GlowCompositeProfileV1::EncodedSrgb8ScreenV1.key(),
        "encoded-srgb8-screen-v1"
    );
    assert_eq!(GlowCompositeGuaranteeV1::BitExact.key(), "bit-exact");
    assert_eq!(
        GlowDiagnosticProfileV1::Cam16UcsJPrimeLi2017V1.key(),
        "cam16-ucs-jprime-li2017-v1"
    );
    assert_eq!(GlowConstraintLayer::Halo.key(), "halo");
    assert_eq!(GlowDecisionProfileV1::StableV1.key(), "stable-v1");
    assert_eq!(
        GlowDecisionProfileV1::LegacyPlatformDependentV1.key(),
        "legacy-platform-dependent-v1"
    );
}

#[test]
fn decision_profile_parses_exactly_its_keys() {
    for profile in [
        GlowDecisionProfileV1::StableV1,
        GlowDecisionProfileV1::LegacyPlatformDependentV1,
    ] {
        assert_eq!(GlowDecisionProfileV1::parse(profile.key()), Ok(profile));
    }
    assert_eq!(
        GlowDecisionProfileV1::parse("Stable-v1"),
        Err("Stable-v1".to_string())
    );
    assert_eq!(GlowDecisionProfileV1::parse(""), Err(String::new()));
}

#[test]
fn decision_profile_and_execution_mode_round_trip() {
    for profile in [
        GlowDecisionProfileV1::StableV1,
        GlowDecisionProfileV1::LegacyPlatformDependentV1,
    ] {
        assert_eq!(
            GlowDecisionProfileV1::from_execution_mode(profile.execution_mode()),
            profile
        );
    }
    assert_eq!(
        GlowDecisionProfileV1::LegacyPlatformDependentV1.execution_mode(),
        NumericalExecutionModeV1::ExplicitCompatibility {
            release_id: NumericalCompatibilityReleaseIdV1::GlowCam16UcsJPrimeTargetOrMaxV1,
        }
    );
}

#[test]
fn glow_step_parses_exactly_its_keys() {
    for step in [GlowStep::Subtle, GlowStep::Base, GlowStep::Bloom] {
        assert_eq!(GlowStep::parse(step.key()), Ok(step));
    }
    assert_eq!(GlowStep::Bloom.key(), "bloom");
    assert_eq!(GlowStep::parse("huge"), Err("huge".to_string()));
}

#[test]
fn exact_noop_holds_only_below_half_a_step() {
    // White background: (255 - bg) = 0 in every channel.
    assert_eq!(screen_point_is_exact_noop("#FF3B30", "#FFFFFF"), Ok(true));
    // Black glow: zero slope.
    assert_eq!(screen_point_is_exact_noop("000000", "#123456"), Ok(true));
    // 1 * (255 - 128) = 127: 2 * 127 < 255.
    assert_eq!(screen_point_is_exact_noop("#010101", "#808080"), Ok(true));
    // 1 * (255 - 127) = 128: 2 * 128 >= 255.
    assert_eq!(screen_point_is_exact_noop("#010101", "#7F7F7F"), Ok(false));
    assert_eq!(screen_point_is_exact_noop("#ff3b30", "#000000"), Ok(false));
}

#[test]
fn exact_noop_rejects_invalid_hex() {
    assert_eq!(
        screen_point_is_exact_noop("#fff", "#000000"),
        Err("#fff".to_string())
    );
    assert_eq!(
        screen_point_is_exact_noop("#000000", "#GG0000"),
        Err("#GG0000".to_string())
    );
}

#[test]
fn stable_decision_certifies_only_exact_noops() {
    let target = 2.3006f64.to_bits();
    match decide_screen_point_stable_v1("#FF3B30", "#FFFFFF", target, "0.5".to_string()) {
        Ok(GlowStableDecisionV1::ExactNoop { solve, evidence }) => {
            let certificate = solve.composite_certificate();
            assert_eq!(certificate.tint_srgb8(), [0xFF, 0x3B, 0x30]);
            assert_eq!(certificate.background_srgb8(), [0xFF; 3]);
            assert_eq!(certificate.composite_srgb8(), [0xFF; 3]);
            assert_eq!(certificate.alpha_bits(), EXACT_NOOP_ALPHA_BITS);
            assert_eq!(f64::from_bits(certificate.alpha_bits()), 0.5);
            assert_eq!(certificate.alpha_css(), "0.5");
            assert_eq!(certificate.guarantee().key(), "bit-exact");
            assert_eq!(certificate.profile().key(), "encoded-srgb8-screen-v1");
            assert_eq!(solve.composite_hex(), "#FFFFFF");
            assert_eq!(solve.alpha_bits(), 0.5f64.to_bits());
            assert_eq!(solve.target_dj_bits(), target);
            assert_eq!(solve.achieved_dj_bits(), 0.0f64.to_bits());
            assert_eq!(solve.status(), GlowTargetStatus::ExactNoopUnreachable);
            assert!(solve.degraded());
            assert_eq!(solve.selection_diagnostic_profile(), None);
            assert_eq!(solve.constraint_layer(), GlowConstraintLayer::Halo);
            assert_eq!(evidence.class_key(), "bit-exact");
        }
        other => panic!("expected an exact no-op, got {other:?}"),
    }
    assert_eq!(
        decide_screen_point_stable_v1("#FF3B30", "#000000", target, "0.5".to_string()),
        Ok(GlowStableDecisionV1::SoundBoundUnavailable)
    );
    assert_eq!(
        decide_screen_point_stable_v1("red", "#000000", target, "0.5".to_string()),
        Err(GlowStableRefusalV1::InvalidColor {
            text: "red".to_string()
        })
    );
}

#[test]
fn stable_decision_refuses_a_target_outside_its_domain_first() {
    for target in [0.0, -0.0, -1.0, f64::NAN, f64::INFINITY] {
        assert_eq!(
            decide_screen_point_stable_v1("red", "#000000", target.to_bits(), "0.5".to_string()),
            Err(GlowStableRefusalV1::TargetOutOfDomain {
                target_dj_bits: target.to_bits()
            })
        );
    }
}

#[test]
fn hex_text_is_canonical_and_parses_back() {
    assert_eq!(Srgb8::new([0x1A, 0x2B, 0x3C]).to_hex(), "#1A2B3C");
    assert_eq!(Srgb8::parse_hex("ff3b30"), Some(Srgb8::new([0xFF, 0x3B, 0x30])));
    assert_eq!(Srgb8::parse_hex("#Ff3B30"), Some(Srgb8::new([0xFF, 0x3B, 0x30])));
    assert_eq!(Srgb8::parse_hex("#fff"), None);
    assert_eq!(Srgb8::parse_hex("#ff3b3g"), None);
    assert_eq!(Srgb8::parse_hex("ff3b30#"), None);
    for bytes in [[0, 0, 0], [255, 255, 255], [9, 10, 171]] {
        let color = Srgb8::new(bytes);
        assert_eq!(Srgb8::parse_hex(&color.to_hex()), Some(color));
    }
}

fn composite(byte: u8) -> QuantisedCompositeV1 {
    QuantisedCompositeV1 {
        bytes: [byte; 3],
        lower_bits: u64::from(byte),
        upper_bits: u64::from(byte) + 1,
        upper_inclusive: false,
    }
}

fn select(target: f64, measured: &[f64]) -> Result<(QuantisedCompositeV1, u64, GlowTargetStatus), GlowLegacyRefusalV1> {
    let mut selection = LegacySelectionV1::Searching { best: None };
    for (i, dj) in measured.iter().enumerate() {
        selection = legacy_selection_step(selection, composite(i as u8), dj.to_bits(), target.to_bits())?;
    }
    legacy_selection_finish(selection)
}

#[test]
fn legacy_selection_takes_the_first_state_reaching_the_target() {
    let (state, dj, status) = select(2.0, &[0.5, 2.0, 3.0, 2.5]).unwrap();
    assert_eq!(state, composite(1));
    assert_eq!(f64::from_bits(dj), 2.0);
    assert_eq!(status, GlowTargetStatus::LegacyReached);
}

#[test]
fn legacy_selection_falls_back_to_the_first_maximum() {
    let (state, dj, status) = select(9.0, &[0.5, 3.0, 1.0, 3.0, 0.0]).unwrap();
    assert_eq!(state, composite(1));
    assert_eq!(f64::from_bits(dj), 3.0);
    assert_eq!(status, GlowTargetStatus::LegacyUnreachable);
}

#[test]
fn legacy_selection_refuses_non_finite_measurements_and_empty_streams() {
    assert_eq!(
        select(1.0, &[0.5, f64::NAN]),
        Err(GlowLegacyRefusalV1::NonFiniteDeltaJ { bytes: [1; 3] })
    );
    assert_eq!(select(1.0, &[]), Err(GlowLegacyRefusalV1::EmptyStream));
}

#[test]
fn glow_source_halo_is_canonical_and_neutral_sources_keep_no_hue() {
    assert_eq!(
        glow_source_halo_and_neutrality("ff3b30"),
        Ok(("#FF3B30".to_string(), false))
    );
    assert_eq!(
        glow_source_halo_and_neutrality("#7f7f7f"),
        Ok(("#7F7F7F".to_string(), true))
    );
    assert_eq!(
        glow_source_halo_and_neutrality("#fff"),
        Err("#fff".to_string())
    );
}

#[test]
fn compatibility_outcome_reports_legacy_provenance() {
    let outcome = GlowDecisionOutcomeV1::compatibility(
        NumericalCompatibilityReleaseIdV1::GlowCam16UcsJPrimeTargetOrMaxV1,
    );
    assert_eq!(outcome.guarantee_wire_key(), "legacy-platform-dependent-v1");
    assert_eq!(
        outcome.decision_profile(),
        GlowDecisionProfileV1::LegacyPlatformDependentV1
    );
}
