//! Point reference primitive of the screen glow recipe.
//!
//! A glow layer is a colour `G` with opacity `α` and `mix-blend-mode: screen`
//! over an opaque background. In encoded sRGB each channel becomes
//! `bg + α·G·(1−bg)`: the layer never darkens, and it is linear in `α`.
//! On the byte scale a channel can leave its background byte only when
//! `G·(255−bg)/255` reaches half a step at `α = 1`; when no channel does,
//! every `α` yields the background bytes exactly, which is the one decision
//! the stable profile makes without an appearance model.
use vstd::prelude::*;
use vstd::string::*;
use vstd::arithmetic::power2::{lemma2_to64, lemma_pow2_adds, lemma_pow2_strictly_increases, lemma_pow2_unfold, pow2};
use vstd::arithmetic::div_mod::{lemma_fundamental_div_mod, lemma_fundamental_div_mod_converse};
use crate::binary64::{hidden_bit, is_nearest_to_quotient, ONE_BITS};
use crate::glow_stream::QuantisedCompositeV1;
use crate::hex::{hex_text, parse_hex_spec, str_eq, Srgb8};
use crate::numerics::{
    LegacyPlatformDependentV1, NumericalCompatibilityReleaseIdV1, NumericalDecisionEvidenceV1,
    NumericalExecutionModeV1,
};

verus! {

/// Version of the exact point-composite reference domain.
pub const GLOW_COMPOSITE_PROFILE: &'static str = "encoded-srgb8-screen-v1";

/// Appearance model used by the legacy selection and by measurements; not a
/// guarantee of the numerical decision.
pub const GLOW_DIAGNOSTIC_PROFILE: &'static str = "cam16-ucs-jprime-li2017-v1";

/// Version of the recipe that builds the core layer from the source's J′ and
/// the Oklab cusp.
pub const GLOW_LAYER_RECIPE_PROFILE: &'static str = "cam16-jprime-oklab-cusp-v1";

/// Exact compositing profile.
#[derive(Debug, Clone, Copy, PartialEq, Eq, Structural)]
#[non_exhaustive]
pub enum GlowCompositeProfileV1 {
    /// Point screen composite in encoded sRGB8.
    EncodedSrgb8ScreenV1,
}

impl GlowCompositeProfileV1 {
    /// Stable wire key.
    pub fn key(self) -> (key: &'static str)
        ensures
            key@ == "encoded-srgb8-screen-v1"@,
    {
        match self {
            Self::EncodedSrgb8ScreenV1 => GLOW_COMPOSITE_PROFILE,
        }
    }
}

/// Guarantee of the exact compositing certificate, independent of any
/// appearance decision.
#[derive(Debug, Clone, Copy, PartialEq, Eq, Structural)]
#[non_exhaustive]
pub enum GlowCompositeGuaranteeV1 {
    /// The encoded sRGB8 state and the emitted binary64 alpha are exact.
    BitExact,
}

impl GlowCompositeGuaranteeV1 {
    /// Stable wire key.
    pub fn key(self) -> (key: &'static str)
        ensures
            key@ == "bit-exact"@,
    {
        match self {
            Self::BitExact => "bit-exact",
        }
    }
}

/// Appearance diagnostic; not a guarantee of the decision.
#[derive(Debug, Clone, Copy, PartialEq, Eq, Structural)]
#[non_exhaustive]
pub enum GlowDiagnosticProfileV1 {
    /// CAM16-UCS J′ after Li et al. 2017.
    Cam16UcsJPrimeLi2017V1,
}

impl GlowDiagnosticProfileV1 {
    /// Stable wire key.
    pub fn key(self) -> (key: &'static str)
        ensures
            key@ == "cam16-ucs-jprime-li2017-v1"@,
    {
        match self {
            Self::Cam16UcsJPrimeLi2017V1 => GLOW_DIAGNOSTIC_PROFILE,
        }
    }
}

/// The current two-layer glow recipe.
#[derive(Debug, Clone, Copy, PartialEq, Eq, Structural)]
#[non_exhaustive]
pub enum GlowLayerRecipeProfileV1 {
    /// The midpoint CAM16-UCS J′ becomes the core's Oklab lightness; a
    /// chromatic core takes the bounded cusp chroma of its Oklab hue; the
    /// halo is the source.
    Cam16JPrimeOklabCuspV1,
}

impl GlowLayerRecipeProfileV1 {
    /// Stable wire key of the recipe.
    pub fn key(self) -> (key: &'static str)
        ensures
            key@ == "cam16-jprime-oklab-cusp-v1"@,
    {
        match self {
            Self::Cam16JPrimeOklabCuspV1 => GLOW_LAYER_RECIPE_PROFILE,
        }
    }
}

/// Explicitly chosen profile of the numerical decision; there is no default,
/// so the legacy path never appears as a fallback.
#[derive(Debug, Clone, Copy, PartialEq, Eq, Structural)]
#[non_exhaustive]
pub enum GlowDecisionProfileV1 {
    /// Without a sound bound the semantic branch is not chosen.
    StableV1,
    /// The former CAM16/libm-dependent selection, kept only explicitly.
    LegacyPlatformDependentV1,
}

/// Wire key of a decision profile.
pub open spec fn decision_profile_key(profile: GlowDecisionProfileV1) -> Seq<char> {
    match profile {
        GlowDecisionProfileV1::StableV1 => "stable-v1"@,
        GlowDecisionProfileV1::LegacyPlatformDependentV1 => "legacy-platform-dependent-v1"@,
    }
}

/// Execution mode a decision profile stands for.
pub open spec fn profile_execution_mode(profile: GlowDecisionProfileV1) -> NumericalExecutionModeV1 {
    match profile {
        GlowDecisionProfileV1::StableV1 => NumericalExecutionModeV1::StableOnly,
        GlowDecisionProfileV1::LegacyPlatformDependentV1 => NumericalExecutionModeV1::ExplicitCompatibility {
            release_id: NumericalCompatibilityReleaseIdV1::GlowCam16UcsJPrimeTargetOrMaxV1,
        },
    }
}

impl GlowDecisionProfileV1 {
    /// Stable config and wire key.
    pub fn key(self) -> (key: &'static str)
        ensures
            key@ == decision_profile_key(self),
    {
        match self {
            Self::StableV1 => "stable-v1",
            Self::LegacyPlatformDependentV1 => "legacy-platform-dependent-v1",
        }
    }

    /// Parses a required config key; an unknown key is returned as the error,
    /// never normalised.
    pub fn parse(raw: &str) -> (profile: Result<Self, String>)
        ensures
            match profile {
                Ok(p) => decision_profile_key(p) == raw@,
                Err(e) => e@ == raw@ && forall|p: GlowDecisionProfileV1|
                    decision_profile_key(p) != raw@,
            },
    {
        if str_eq(raw, "stable-v1") {
            Ok(Self::StableV1)
        } else if str_eq(raw, "legacy-platform-dependent-v1") {
            Ok(Self::LegacyPlatformDependentV1)
        } else {
            proof {
                assert forall|p: GlowDecisionProfileV1| decision_profile_key(p) != raw@ by {
                    match p {
                        GlowDecisionProfileV1::StableV1 => {},
                        GlowDecisionProfileV1::LegacyPlatformDependentV1 => {},
                    }
                }
            }
            Err(String::from_str(raw))
        }
    }

    /// The generic execution mode of this profile.
    pub fn execution_mode(self) -> (mode: NumericalExecutionModeV1)
        ensures
            mode == profile_execution_mode(self),
    {
        match self {
            Self::StableV1 => NumericalExecutionModeV1::StableOnly,
            Self::LegacyPlatformDependentV1 => NumericalExecutionModeV1::ExplicitCompatibility {
                release_id: NumericalCompatibilityReleaseIdV1::GlowCam16UcsJPrimeTargetOrMaxV1,
            },
        }
    }

    /// The profile of a generic execution mode.
    pub fn from_execution_mode(mode: NumericalExecutionModeV1) -> (profile: Self)
        ensures
            profile_execution_mode(profile) == mode,
    {
        match mode {
            NumericalExecutionModeV1::StableOnly => Self::StableV1,
            NumericalExecutionModeV1::ExplicitCompatibility {
                release_id: NumericalCompatibilityReleaseIdV1::GlowCam16UcsJPrimeTargetOrMaxV1,
            } => Self::LegacyPlatformDependentV1,
        }
    }
}

/// Wire keys of distinct decision profiles differ, so a key parses back to
/// the profile it came from.
pub proof fn lemma_decision_profile_keys_are_distinct(a: GlowDecisionProfileV1, b: GlowDecisionProfileV1)
    ensures
        decision_profile_key(a) == decision_profile_key(b) ==> a == b,
{
    reveal_strlit("stable-v1");
    reveal_strlit("legacy-platform-dependent-v1");
    if a != b {
        assert(decision_profile_key(a)[0] != decision_profile_key(b)[0]);
    }
}

/// Decision profiles and execution modes correspond one to one: distinct
/// profiles have distinct modes and every mode has a profile, so
/// `from_execution_mode` undoes `execution_mode` and the other way round.
pub proof fn lemma_decision_profile_mode_bijection(
    a: GlowDecisionProfileV1,
    b: GlowDecisionProfileV1,
    mode: NumericalExecutionModeV1,
)
    ensures
        profile_execution_mode(a) == profile_execution_mode(b) ==> a == b,
        exists|p: GlowDecisionProfileV1| profile_execution_mode(p) == mode,
{
    match mode {
        NumericalExecutionModeV1::StableOnly => {
            assert(profile_execution_mode(GlowDecisionProfileV1::StableV1) == mode);
        },
        NumericalExecutionModeV1::ExplicitCompatibility { release_id } => {
            assert(profile_execution_mode(GlowDecisionProfileV1::LegacyPlatformDependentV1) == mode);
        },
    }
}

/// Outcome of a glow decision after the state is chosen: a stable exact
/// no-op proven by sealed bit-exact evidence, or an explicitly registered
/// compatibility algorithm.
#[derive(Debug, Clone, Copy, PartialEq, Structural)]
#[non_exhaustive]
pub enum GlowDecisionOutcomeV1 {
    /// Stable exact no-op, proven by registry-owned evidence.
    StableExactNoop { evidence: NumericalDecisionEvidenceV1 },
    /// The explicitly chosen registered former algorithm.
    Compatibility {
        release_id: NumericalCompatibilityReleaseIdV1,
        provenance: LegacyPlatformDependentV1,
    },
}

impl GlowDecisionOutcomeV1 {
    /// The outcome of an explicitly chosen registered compatibility release,
    /// marked platform-dependent.
    pub fn compatibility(release_id: NumericalCompatibilityReleaseIdV1) -> (outcome: Self)
        ensures
            outcome == (GlowDecisionOutcomeV1::Compatibility {
                release_id,
                provenance: LegacyPlatformDependentV1,
            }),
    {
        GlowDecisionOutcomeV1::Compatibility { release_id, provenance: LegacyPlatformDependentV1 }
    }

    /// Former wire key of the guarantee: `bit-exact` for the stable no-op,
    /// `legacy-platform-dependent-v1` for a compatibility result.
    pub fn guarantee_wire_key(&self) -> (key: &'static str)
        ensures
            self is StableExactNoop ==> key@ == "bit-exact"@,
            self is Compatibility ==> key@ == "legacy-platform-dependent-v1"@,
    {
        match self {
            Self::StableExactNoop { evidence } => evidence.class_key(),
            Self::Compatibility { provenance, .. } => provenance.key(),
        }
    }

    /// Former client decision profile of the outcome.
    pub fn decision_profile(&self) -> (profile: GlowDecisionProfileV1)
        ensures
            self is StableExactNoop ==> profile == GlowDecisionProfileV1::StableV1,
            self is Compatibility ==> profile == GlowDecisionProfileV1::LegacyPlatformDependentV1,
    {
        match self {
            Self::StableExactNoop { .. } => GlowDecisionProfileV1::StableV1,
            Self::Compatibility { .. } => GlowDecisionProfileV1::LegacyPlatformDependentV1,
        }
    }
}

/// Layer on which the point solver holds the target ΔJ′.
#[derive(Debug, Clone, Copy, PartialEq, Eq, Structural)]
#[non_exhaustive]
pub enum GlowConstraintLayer {
    /// The outer halo; the core is measured separately.
    Halo,
}

impl GlowConstraintLayer {
    /// Stable wire key.
    pub fn key(self) -> (key: &'static str)
        ensures
            key@ == "halo"@,
    {
        match self {
            Self::Halo => "halo",
        }
    }
}

/// Outcome of checking the target over the finite reference domain.
#[derive(Debug, Clone, Copy, PartialEq, Eq, Structural)]
#[non_exhaustive]
pub enum GlowTargetStatus {
    /// Stable exact no-op: every alpha gives the background bytes, so a
    /// positive target is exactly unreachable.
    ExactNoopUnreachable,
    /// The explicit legacy selection found the first state that holds the
    /// target.
    LegacyReached,
    /// The explicit legacy selection did not reach the target and returned
    /// the maximum |ΔJ′|, the first by alpha among equal maxima.
    LegacyUnreachable,
}

/// Wire key of a target status.
pub open spec fn target_status_key(status: GlowTargetStatus) -> Seq<char> {
    match status {
        GlowTargetStatus::ExactNoopUnreachable => "exact-noop-unreachable"@,
        GlowTargetStatus::LegacyReached => "legacy-reached"@,
        GlowTargetStatus::LegacyUnreachable => "legacy-unreachable"@,
    }
}

impl GlowTargetStatus {
    /// Stable wire key.
    pub fn key(self) -> (key: &'static str)
        ensures
            key@ == target_status_key(self),
    {
        match self {
            Self::ExactNoopUnreachable => "exact-noop-unreachable",
            Self::LegacyReached => "legacy-reached",
            Self::LegacyUnreachable => "legacy-unreachable",
        }
    }
}

/// Wire keys of distinct target statuses differ.
pub proof fn lemma_target_status_keys_are_distinct(a: GlowTargetStatus, b: GlowTargetStatus)
    ensures
        target_status_key(a) == target_status_key(b) ==> a == b,
{
    reveal_strlit("exact-noop-unreachable");
    reveal_strlit("legacy-reached");
    reveal_strlit("legacy-unreachable");
    if a != b {
        if a is ExactNoopUnreachable || b is ExactNoopUnreachable {
            assert(target_status_key(a)[0] != target_status_key(b)[0]);
        } else {
            assert(target_status_key(a)[7] != target_status_key(b)[7]);
        }
    }
}

/// Step of the glow stack.
#[derive(Debug, Clone, Copy, PartialEq, Eq, Structural)]
pub enum GlowStep {
    /// Mirrors the minor shadow.
    Subtle,
    /// Mirrors the ambient shadow.
    Base,
    /// Mirrors the major shadow.
    Bloom,
}

/// Config key of a glow step.
pub open spec fn glow_step_key(step: GlowStep) -> Seq<char> {
    match step {
        GlowStep::Subtle => "subtle"@,
        GlowStep::Base => "base"@,
        GlowStep::Bloom => "bloom"@,
    }
}

impl GlowStep {
    /// Stable kebab key of the step.
    pub fn key(self) -> (key: &'static str)
        ensures
            key@ == glow_step_key(self),
    {
        match self {
            GlowStep::Subtle => "subtle",
            GlowStep::Base => "base",
            GlowStep::Bloom => "bloom",
        }
    }

    /// Parses a kebab key; an unknown text is returned as the error.
    pub fn parse(raw: &str) -> (step: Result<Self, String>)
        ensures
            match step {
                Ok(s) => glow_step_key(s) == raw@,
                Err(e) => e@ == raw@ && forall|s: GlowStep| glow_step_key(s) != raw@,
            },
    {
        if str_eq(raw, "subtle") {
            Ok(GlowStep::Subtle)
        } else if str_eq(raw, "base") {
            Ok(GlowStep::Base)
        } else if str_eq(raw, "bloom") {
            Ok(GlowStep::Bloom)
        } else {
            proof {
                assert forall|s: GlowStep| glow_step_key(s) != raw@ by {
                    match s {
                        GlowStep::Subtle => {},
                        GlowStep::Base => {},
                        GlowStep::Bloom => {},
                    }
                }
            }
            Err(String::from_str(raw))
        }
    }
}

/// Config keys of distinct glow steps differ, so a key parses back to the
/// step it came from.
pub proof fn lemma_glow_step_keys_are_distinct(a: GlowStep, b: GlowStep)
    ensures
        glow_step_key(a) == glow_step_key(b) ==> a == b,
{
    reveal_strlit("subtle");
    reveal_strlit("base");
    reveal_strlit("bloom");
    if a != b {
        assert(glow_step_key(a)[1] != glow_step_key(b)[1]);
    }
}

/// Slope of one channel on the byte scale: `G·(255−bg)`.
pub open spec fn channel_slope(glow: u8, background: u8) -> int {
    glow * (255 - background)
}

/// A channel stays on its background byte for every alpha: at `α = 1` the
/// screen endpoint `bg + G·(255−bg)/255` stays below the first half-step
/// wall, `G·(255−bg)/255 < 1/2`.
pub open spec fn channel_is_exact_noop(glow: u8, background: u8) -> bool {
    2 * channel_slope(glow, background) < 255
}

/// Every channel of the glow over the background is an exact no-op.
pub open spec fn screen_is_exact_noop(glow: Srgb8, background: Srgb8) -> bool {
    &&& channel_is_exact_noop(glow.r, background.r)
    &&& channel_is_exact_noop(glow.g, background.g)
    &&& channel_is_exact_noop(glow.b, background.b)
}

fn channel_slope_exec(glow: u8, background: u8) -> (slope: u16)
    ensures
        slope == channel_slope(glow, background),
{
    assert(glow as int * (255 - background) as int <= 255 * 255) by (nonlinear_arith)
        requires
            glow <= 255,
            background <= 255,
    ;
    glow as u16 * (255 - background) as u16
}

/// Parsed point inputs of a screen composite and the slopes of their
/// channels.
struct ScreenPointInputs {
    glow: Srgb8,
    background: Srgb8,
    slopes: [u16; 3],
}

/// Parses a colour, returning the rejected text as the error.
fn parse_srgb8(text: &str) -> (color: Result<Srgb8, String>)
    ensures
        match color {
            Ok(c) => parse_hex_spec(text@) == Some(c),
            Err(e) => parse_hex_spec(text@) is None && e@ == text@,
        },
{
    match Srgb8::parse_hex(text) {
        Some(c) => Ok(c),
        None => Err(String::from_str(text)),
    }
}

/// Parses the exact point inputs and derives the slope of each channel.
fn screen_point_inputs(glow_tint_hex: &str, bg_hex: &str) -> (inputs: Result<ScreenPointInputs, String>)
    ensures
        match (parse_hex_spec(glow_tint_hex@), parse_hex_spec(bg_hex@)) {
            (Some(g), Some(b)) => inputs matches Ok(i) && i.glow == g && i.background == b
                && i.slopes@.len() == 3 && i.slopes@[0] == channel_slope(g.r, b.r)
                && i.slopes@[1] == channel_slope(g.g, b.g) && i.slopes@[2] == channel_slope(g.b, b.b),
            (None, _) => inputs matches Err(e) && e@ == glow_tint_hex@,
            (Some(_), None) => inputs matches Err(e) && e@ == bg_hex@,
        },
{
    let glow = match parse_srgb8(glow_tint_hex) {
        Ok(c) => c,
        Err(e) => return Err(e),
    };
    let background = match parse_srgb8(bg_hex) {
        Ok(c) => c,
        Err(e) => return Err(e),
    };
    let slopes = [
        channel_slope_exec(glow.r, background.r),
        channel_slope_exec(glow.g, background.g),
        channel_slope_exec(glow.b, background.b),
    ];
    Ok(ScreenPointInputs { glow, background, slopes })
}

/// Every alpha quantises to the background exactly when, in every channel,
/// the endpoint at `α = 1` stays below the first half-step wall:
/// `G·(255−bg)/255 < 1/2`.
fn slopes_are_exact_srgb8_noop(slopes: [u16; 3]) -> (noop: bool)
    ensures
        noop == (2 * slopes@[0] < 255 && 2 * slopes@[1] < 255 && 2 * slopes@[2] < 255),
{
    let mut i: usize = 0;
    while i < 3
        invariant
            0 <= i <= 3,
            forall|j: int| 0 <= j < i ==> 2 * slopes@[j] < 255,
        decreases 3 - i,
    {
        if 2 * (slopes[i] as u32) >= 255 {
            return false;
        }
        i += 1;
    }
    true
}

/// Exact re-check predicate of the stable point glow decision: `true` exactly
/// when, in every channel, the monotone screen endpoint at `α = 1` stays
/// below the first half-step wall. Zero slopes and non-zero slopes below half
/// a step both count. No appearance model or epsilon is involved.
///
/// A tint or background that is not a hex colour is returned as the error.
pub fn screen_point_is_exact_noop(glow_tint_hex: &str, bg_hex: &str) -> (noop: Result<
    bool,
    String,
>)
    ensures
        match (parse_hex_spec(glow_tint_hex@), parse_hex_spec(bg_hex@)) {
            (Some(g), Some(b)) => noop == Ok::<bool, String>(screen_is_exact_noop(g, b)),
            (None, _) => noop matches Err(e) && e@ == glow_tint_hex@,
            (Some(_), None) => noop matches Err(e) && e@ == bg_hex@,
        },
{
    let inputs = match screen_point_inputs(glow_tint_hex, bg_hex) {
        Ok(inputs) => inputs,
        Err(e) => return Err(e),
    };
    Ok(slopes_are_exact_srgb8_noop(inputs.slopes))
}

/// At alpha `a / b` the exact screen increment of a channel,
/// `(a/b)·G·(255−bg)/255`, stays below half a byte step.
pub open spec fn increment_below_half_step(glow: u8, background: u8, a: int, b: int) -> bool {
    2 * a * channel_slope(glow, background) < 255 * b
}

/// Screen is monotone in alpha, so a channel keeps its background byte for
/// every alpha in `[0, 1]` exactly when it does at alpha `1`: the no-op
/// predicate is the same as "every rational alpha `a / b` with
/// `0 <= a <= b` leaves the exact increment below half a step".
pub proof fn lemma_noop_iff_every_alpha_keeps_background(glow: u8, background: u8)
    ensures
        channel_is_exact_noop(glow, background) <==> forall|a: int, b: int|
            0 <= a <= b && b > 0 ==> #[trigger] increment_below_half_step(glow, background, a, b),
{
    let slope = channel_slope(glow, background);
    assert(slope >= 0) by (nonlinear_arith)
        requires
            slope == glow * (255 - background),
            glow >= 0,
            background <= 255,
    ;
    if channel_is_exact_noop(glow, background) {
        assert forall|a: int, b: int| 0 <= a <= b && b > 0 implies #[trigger] increment_below_half_step(
            glow,
            background,
            a,
            b,
        ) by {
            assert(2 * a * slope <= 2 * b * slope) by (nonlinear_arith)
                requires
                    0 <= a <= b,
                    slope >= 0,
            ;
            assert(2 * b * slope < 255 * b) by (nonlinear_arith)
                requires
                    2 * slope < 255,
                    b > 0,
            ;
        }
    } else {
        assert(!increment_below_half_step(glow, background, 1, 1));
    }
}

/// On a white background, and for a black glow, the layer is a point no-op
/// for every alpha.
pub proof fn lemma_white_background_and_black_glow_are_noops(glow: u8, background: u8)
    ensures
        background == 255 ==> channel_is_exact_noop(glow, background),
        glow == 0 ==> channel_is_exact_noop(glow, background),
{
    if background == 255 {
        assert(glow * (255 - background) == 0) by (nonlinear_arith)
            requires
                background == 255,
        ;
    }
    if glow == 0 {
        assert(glow * (255 - background) == 0) by (nonlinear_arith)
            requires
                glow == 0,
        ;
    }
}

/// Exact certificate of one isolated encoded-sRGB8 screen composite.
#[derive(Debug, Clone, PartialEq, Eq)]
pub struct GlowCompositeCertificateV1 {
    tint_srgb8: Srgb8,
    background_srgb8: Srgb8,
    alpha_bits: u64,
    alpha_css: String,
    composite_srgb8: Srgb8,
}

impl GlowCompositeCertificateV1 {
    /// Tint bytes.
    pub closed spec fn spec_tint(self) -> Srgb8 {
        self.tint_srgb8
    }

    /// Background bytes.
    pub closed spec fn spec_background(self) -> Srgb8 {
        self.background_srgb8
    }

    /// Bit pattern of the alpha.
    pub closed spec fn spec_alpha_bits(self) -> u64 {
        self.alpha_bits
    }

    /// CSS text of the alpha.
    pub closed spec fn spec_alpha_css(self) -> Seq<char> {
        self.alpha_css@
    }

    /// Composite bytes.
    pub closed spec fn spec_composite(self) -> Srgb8 {
        self.composite_srgb8
    }

    /// Reference profile of the exact arithmetic.
    pub fn profile(&self) -> (profile: GlowCompositeProfileV1)
        ensures
            profile == GlowCompositeProfileV1::EncodedSrgb8ScreenV1,
    {
        GlowCompositeProfileV1::EncodedSrgb8ScreenV1
    }

    /// The exact guarantee, independent of any appearance diagnostic.
    pub fn guarantee(&self) -> (guarantee: GlowCompositeGuaranteeV1)
        ensures
            guarantee == GlowCompositeGuaranteeV1::BitExact,
    {
        GlowCompositeGuaranteeV1::BitExact
    }

    /// Emitted tint bytes.
    pub fn tint_srgb8(&self) -> (bytes: [u8; 3])
        ensures
            bytes@ == seq![self.spec_tint().r, self.spec_tint().g, self.spec_tint().b],
    {
        self.tint_srgb8.bytes()
    }

    /// Background bytes of the request.
    pub fn background_srgb8(&self) -> (bytes: [u8; 3])
        ensures
            bytes@ == seq![
                self.spec_background().r,
                self.spec_background().g,
                self.spec_background().b,
            ],
    {
        self.background_srgb8.bytes()
    }

    /// Exact binary64 identity of the alpha.
    pub fn alpha_bits(&self) -> (bits: u64)
        ensures
            bits == self.spec_alpha_bits(),
    {
        self.alpha_bits
    }

    /// Canonical CSS text of the same alpha.
    pub fn alpha_css(&self) -> (css: &str)
        ensures
            css@ == self.spec_alpha_css(),
    {
        self.alpha_css.as_str()
    }

    /// Exact composite bytes.
    pub fn composite_srgb8(&self) -> (bytes: [u8; 3])
        ensures
            bytes@ == seq![
                self.spec_composite().r,
                self.spec_composite().g,
                self.spec_composite().b,
            ],
    {
        self.composite_srgb8.bytes()
    }
}

/// Bit pattern of `0.5`, the canonical alpha of an exact no-op: every alpha
/// gives the same bytes, and `0.5` is the middle representative.
pub const EXACT_NOOP_ALPHA_BITS: u64 = 0x3fe0_0000_0000_0000;

/// Result of the glow solver with a typed target status. Binary64 values are
/// carried as bit patterns.
#[derive(Debug, Clone, PartialEq, Eq)]
pub struct GlowSolve {
    alpha_bits: u64,
    alpha_css: String,
    target_dj_bits: u64,
    achieved_dj_bits: u64,
    composite_hex: String,
    composite_certificate: GlowCompositeCertificateV1,
    selection_diagnostic_profile: Option<GlowDiagnosticProfileV1>,
    status: GlowTargetStatus,
}

impl GlowSolve {
    /// Bit pattern of the canonical alpha.
    pub closed spec fn spec_alpha_bits(self) -> u64 {
        self.alpha_bits
    }

    /// CSS text of the alpha.
    pub closed spec fn spec_alpha_css(self) -> Seq<char> {
        self.alpha_css@
    }

    /// Bit pattern of the requested |ΔJ′|.
    pub closed spec fn spec_target_dj_bits(self) -> u64 {
        self.target_dj_bits
    }

    /// Bit pattern of the achieved |ΔJ′|.
    pub closed spec fn spec_achieved_dj_bits(self) -> u64 {
        self.achieved_dj_bits
    }

    /// Text of the composite.
    pub closed spec fn spec_composite_hex(self) -> Seq<char> {
        self.composite_hex@
    }

    /// Certificate of the composite.
    pub closed spec fn spec_composite_certificate(self) -> GlowCompositeCertificateV1 {
        self.composite_certificate
    }

    /// Diagnostic model the selection consulted, if any.
    pub closed spec fn spec_selection_diagnostic_profile(self) -> Option<GlowDiagnosticProfileV1> {
        self.selection_diagnostic_profile
    }

    /// Target status.
    pub closed spec fn spec_status(self) -> GlowTargetStatus {
        self.status
    }

    /// Bit pattern of the canonical alpha inside the stable byte interval.
    pub fn alpha_bits(&self) -> (bits: u64)
        ensures
            bits == self.spec_alpha_bits(),
    {
        self.alpha_bits
    }

    /// CSS text that restores the same alpha.
    pub fn alpha_css(&self) -> (css: &str)
        ensures
            css@ == self.spec_alpha_css(),
    {
        self.alpha_css.as_str()
    }

    /// Bit pattern of the requested |ΔJ′| of the halo composite.
    pub fn target_dj_bits(&self) -> (bits: u64)
        ensures
            bits == self.spec_target_dj_bits(),
    {
        self.target_dj_bits
    }

    /// Bit pattern of the |ΔJ′| achieved on the returned composite.
    pub fn achieved_dj_bits(&self) -> (bits: u64)
        ensures
            bits == self.spec_achieved_dj_bits(),
    {
        self.achieved_dj_bits
    }

    /// The returned reference composite of the halo, `#RRGGBB`.
    pub fn composite_hex(&self) -> (hex: &str)
        ensures
            hex@ == self.spec_composite_hex(),
    {
        self.composite_hex.as_str()
    }

    /// Exact certificate of the chosen point composite.
    pub fn composite_certificate(&self) -> (certificate: &GlowCompositeCertificateV1)
        ensures
            *certificate == self.spec_composite_certificate(),
    {
        &self.composite_certificate
    }

    /// Typed outcome of the target check.
    pub fn status(&self) -> (status: GlowTargetStatus)
        ensures
            status == self.spec_status(),
    {
        self.status
    }

    /// The target is unreachable: after an exact no-op, or when the explicit
    /// legacy path returned its maximum.
    pub fn degraded(&self) -> (degraded: bool)
        ensures
            degraded == (self.spec_status() is ExactNoopUnreachable || self.spec_status() is LegacyUnreachable),
    {
        matches!(self.status, GlowTargetStatus::ExactNoopUnreachable | GlowTargetStatus::LegacyUnreachable)
    }

    /// Layer on which the target was solved.
    pub fn constraint_layer(&self) -> (layer: GlowConstraintLayer)
        ensures
            layer == GlowConstraintLayer::Halo,
    {
        GlowConstraintLayer::Halo
    }

    /// Exact profile of the composite.
    pub fn composite_profile(&self) -> (profile: GlowCompositeProfileV1)
        ensures
            profile == GlowCompositeProfileV1::EncodedSrgb8ScreenV1,
    {
        self.composite_certificate.profile()
    }

    /// Diagnostic model, only when the solver really consulted it to select
    /// a target or maximum.
    pub fn selection_diagnostic_profile(&self) -> (profile: Option<GlowDiagnosticProfileV1>)
        ensures
            profile == self.spec_selection_diagnostic_profile(),
    {
        self.selection_diagnostic_profile
    }
}

/// Decision of the stable glow profile for one tint over one background.
#[derive(Debug, Clone, PartialEq, Eq)]
pub enum GlowStableDecisionV1 {
    /// Every alpha composites to the background bytes: determinate, proven by
    /// bit-exact evidence, with the target exactly unreachable.
    ExactNoop { solve: GlowSolve, evidence: NumericalDecisionEvidenceV1 },
    /// A non-trivial target or maximum without a sound bound: nothing is
    /// selected and no appearance model is consulted.
    SoundBoundUnavailable,
}

/// Why the stable decision refused its inputs.
#[derive(Debug, Clone, PartialEq, Eq)]
pub enum GlowStableRefusalV1 {
    /// The target step, given by its bit pattern, is not finite and positive.
    TargetOutOfDomain { target_dj_bits: u64 },
    /// A tint or background text that is not a hex colour.
    InvalidColor { text: String },
}

/// The target step is finite and strictly positive.
pub open spec fn target_in_domain(bits: u64) -> bool {
    crate::binary64::is_finite(bits) && !crate::binary64::sign_bit(bits)
        && !crate::binary64::is_zero(bits)
}

/// The stable decision of a point glow for a target step given by its bit
/// pattern. A target that is not finite and positive is refused first, with
/// its bit pattern, then a tint or background that is not a hex colour, with
/// its text.
/// When every channel is an exact no-op the decision is determinate: alpha
/// `0.5` (written `alpha_css` by the caller's serialiser), achieved `0`, the
/// background as composite, no diagnostic consulted. Otherwise no sound
/// bound exists and nothing is selected.
pub fn decide_screen_point_stable_v1(
    glow_tint_hex: &str,
    bg_hex: &str,
    target_dj_bits: u64,
    alpha_css: String,
) -> (decision: Result<GlowStableDecisionV1, GlowStableRefusalV1>)
    ensures
        !target_in_domain(target_dj_bits) ==> decision == Err::<
            GlowStableDecisionV1,
            GlowStableRefusalV1,
        >(GlowStableRefusalV1::TargetOutOfDomain { target_dj_bits }),
        target_in_domain(target_dj_bits) ==> match (
            parse_hex_spec(glow_tint_hex@),
            parse_hex_spec(bg_hex@),
        ) {
            (Some(g), Some(b)) => if screen_is_exact_noop(g, b) {
                decision matches Ok(GlowStableDecisionV1::ExactNoop { solve, evidence }) && {
                    let certificate = solve.spec_composite_certificate();
                    &&& certificate.spec_tint() == g
                    &&& certificate.spec_background() == b
                    &&& certificate.spec_composite() == b
                    &&& certificate.spec_alpha_bits() == EXACT_NOOP_ALPHA_BITS
                    &&& certificate.spec_alpha_css() == alpha_css@
                    &&& solve.spec_alpha_bits() == EXACT_NOOP_ALPHA_BITS
                    &&& solve.spec_alpha_css() == alpha_css@
                    &&& solve.spec_target_dj_bits() == target_dj_bits
                    &&& solve.spec_achieved_dj_bits() == 0
                    &&& solve.spec_composite_hex() == crate::hex::hex_text(b)
                    &&& solve.spec_selection_diagnostic_profile() is None
                    &&& solve.spec_status() == GlowTargetStatus::ExactNoopUnreachable
                    &&& evidence.spec_class() == crate::numerics::NumericalEvidenceClassV1::BitExact
                }
            } else {
                decision matches Ok(GlowStableDecisionV1::SoundBoundUnavailable)
            },
            (None, _) => decision matches Err(GlowStableRefusalV1::InvalidColor { text }) && text@
                == glow_tint_hex@,
            (Some(_), None) => decision matches Err(GlowStableRefusalV1::InvalidColor { text })
                && text@ == bg_hex@,
        },
{
    if !(crate::binary64::bits_is_finite(target_dj_bits) && !crate::binary64::bits_sign(
        target_dj_bits,
    ) && !crate::binary64::bits_is_zero(target_dj_bits)) {
        return Err(GlowStableRefusalV1::TargetOutOfDomain { target_dj_bits });
    }
    let ScreenPointInputs { glow, background, slopes } = match screen_point_inputs(
        glow_tint_hex,
        bg_hex,
    ) {
        Ok(inputs) => inputs,
        Err(text) => return Err(GlowStableRefusalV1::InvalidColor { text }),
    };
    if slopes_are_exact_srgb8_noop(slopes) {
        let certificate = GlowCompositeCertificateV1 {
            tint_srgb8: glow,
            background_srgb8: background,
            alpha_bits: EXACT_NOOP_ALPHA_BITS,
            alpha_css: alpha_css.clone(),
            composite_srgb8: background,
        };
        let solve = GlowSolve {
            alpha_bits: EXACT_NOOP_ALPHA_BITS,
            alpha_css,
            target_dj_bits,
            achieved_dj_bits: 0,
            composite_hex: background.to_hex(),
            composite_certificate: certificate,
            selection_diagnostic_profile: None,
            status: GlowTargetStatus::ExactNoopUnreachable,
        };
        Ok(
            GlowStableDecisionV1::ExactNoop {
                solve,
                evidence: NumericalDecisionEvidenceV1::mint_bit_exact(),
            },
        )
    } else {
        Ok(GlowStableDecisionV1::SoundBoundUnavailable)
    }
}

/// Twice the numerator of the rational half-step wall of `next_value`:
/// `(next − bg − 1/2)·255`, doubled.
pub open spec fn seed_numerator(background: u8, next_value: u8) -> int {
    (2 * (next_value - background) - 1) * 255
}

/// Twice the denominator of the rational half-step wall: `G·(255 − bg)`,
/// doubled.
pub open spec fn seed_denominator(glow: u8, background: u8) -> int {
    2 * glow * (255 - background)
}

proof fn lemma_quotient_window(num: int, q: int, a: int, m: int, rem: int)
    requires
        q > 0,
        a > 0,
        q * a <= num < 2 * q * a,
        num == m * q + rem,
        0 <= rem < q,
    ensures
        a <= m < 2 * a,
{
    if m < a {
        assert(m * q + rem < q * a) by (nonlinear_arith)
            requires
                m < a,
                0 <= rem < q,
                q > 0,
        ;
    }
    if m >= 2 * a {
        assert(m * q + rem >= 2 * q * a) by (nonlinear_arith)
            requires
                m >= 2 * a,
                rem >= 0,
                q > 0,
        ;
    }
}

/// Binary64 rounding of the rational half-step wall at which a screen
/// channel over `background` first reaches `next_value`, clamped to
/// `[0, 1]`: the seed of the exact boundary search. It is a performance hint
/// only; the compositor defines the actual boundary.
///
/// Below zero it is `+0.0`, from one up it is `1.0` (a zero denominator
/// counts as an infinite quotient), and otherwise it is the binary64 value
/// nearest to `(next − bg − 1/2)·255 / (G·(255 − bg))`, ties to even.
pub fn boundary_seed_bits(glow: u8, background: u8, next_value: u8) -> (bits: u64)
    ensures
        seed_numerator(background, next_value) < 0 ==> bits == 0,
        seed_numerator(background, next_value) >= 0 && seed_numerator(background, next_value)
            >= seed_denominator(glow, background) ==> bits == ONE_BITS,
        0 <= seed_numerator(background, next_value) < seed_denominator(glow, background)
            ==> is_nearest_to_quotient(
            bits,
            seed_numerator(background, next_value),
            seed_denominator(glow, background),
        ),
{
    let p: i64 = (2 * (next_value as i64 - background as i64) - 1) * 255;
    assert(glow as int * (255 - background) as int <= 255 * 255) by (nonlinear_arith)
        requires
            glow <= 255,
            background <= 255,
    ;
    let q: i64 = 2 * (glow as i64 * (255 - background as i64));
    assert(p == seed_numerator(background, next_value));
    assert(q == seed_denominator(glow, background)) by (nonlinear_arith)
        requires
            q == 2 * (glow as int * (255 - background as int)),
    ;
    if p < 0 {
        return 0;
    }
    if p >= q {
        return ONE_BITS;
    }
    let ghost pi = p as int;
    let ghost qi = q as int;
    assert(pi != 0);
    let qq: u128 = q as u128;
    let mut k: u64 = 1;
    let mut scaled: u128 = 2 * (p as u128);
    proof {
        lemma_pow2_unfold(1);
        lemma2_to64();
    }
    while scaled < qq
        invariant
            qq == qi,
            scaled > 0,
            1 <= k <= 17,
            0 < pi < qi,
            qi <= 2 * 255 * 255,
            scaled == pi * pow2(k as nat),
            pi * pow2((k - 1) as nat) < qi,
        decreases 17 - k,
    {
        proof {
            lemma_pow2_unfold((k + 1) as nat);
            assert(pi * pow2((k + 1) as nat) == 2 * scaled) by (nonlinear_arith)
                requires
                    pow2((k + 1) as nat) == 2 * pow2(k as nat),
                    scaled == pi * pow2(k as nat),
            ;
            if k >= 17 {
                lemma2_to64();
                if k > 17 {
                    lemma_pow2_strictly_increases(17, k as nat);
                }
                assert(pi * pow2(k as nat) >= pow2(17)) by (nonlinear_arith)
                    requires
                        pi >= 1,
                        pow2(k as nat) >= pow2(17),
                ;
            }
        }
        scaled = scaled * 2;
        k = k + 1;
    }
    proof {
        lemma_pow2_unfold(k as nat);
        assert(scaled == 2 * (pi * pow2((k - 1) as nat))) by (nonlinear_arith)
            requires
                scaled == pi * pow2(k as nat),
                pow2(k as nat) == 2 * pow2((k - 1) as nat),
        ;
    }
    // q <= p·2^k < 2q
    let num: u128 = scaled * 0x10_0000_0000_0000;
    let m: u128 = num / qq;
    let rem: u128 = num % qq;
    proof {
        lemma_fundamental_div_mod(num as int, qi);
        assert(num == m * qi + rem) by (nonlinear_arith)
            requires
                num == qi * m + rem,
        ;
        lemma_pow2_adds(32, 20);
        lemma_pow2_adds(52, k as nat);
        assert(pow2(52) == hidden_bit());
        assert(num == pi * pow2((52 + k) as nat)) by (nonlinear_arith)
            requires
                num == scaled * 0x10_0000_0000_0000,
                scaled == pi * pow2(k as nat),
                pow2((52 + k) as nat) == pow2(52) * pow2(k as nat),
                pow2(52) == 0x10_0000_0000_0000,
        ;
        assert(qi * hidden_bit() <= num < 2 * qi * hidden_bit()) by (nonlinear_arith)
            requires
                qi <= scaled < 2 * qi,
                num == scaled * 0x10_0000_0000_0000,
                hidden_bit() == 0x10_0000_0000_0000,
        ;
        lemma_quotient_window(num as int, qi, hidden_bit(), m as int, rem as int);
    }
    let round_up = 2 * rem > qq || (2 * rem == qq && m % 2 == 1);
    let significand: u128 = if round_up {
        m + 1
    } else {
        m
    };
    let ghost s = (52 + k) as nat;
    let ghost d = significand * qi - pi * pow2(s);
    proof {
        assert(num == pi * pow2(s));
        if round_up {
            assert(d == qi - rem) by (nonlinear_arith)
                requires
                    d == significand * qi - pi * pow2(s),
                    significand == m + 1,
                    num == pi * pow2(s),
                    num == m * qi + rem,
            ;
        } else {
            assert(d == -(rem as int)) by (nonlinear_arith)
                requires
                    d == significand * qi - pi * pow2(s),
                    significand == m,
                    num == pi * pow2(s),
                    num == m * qi + rem,
            ;
        }
    }
    if significand == 0x20_0000_0000_0000 {
        // The nearest value is the power of two `2^(1 − k)`.
        let e: u64 = 1024 - k;
        let bits: u64 = e * 0x10_0000_0000_0000;
        proof {
            lemma_fundamental_div_mod_converse(bits as int, hidden_bit(), e as int, 0);
            assert(1075 - e == 51 + k);
            lemma_pow2_unfold(s);
            let d2 = hidden_bit() * qi - pi * pow2((51 + k) as nat);
            assert(d == 2 * d2) by (nonlinear_arith)
                requires
                    d == significand * qi - pi * pow2(s),
                    significand == 2 * hidden_bit(),
                    pow2(s) == 2 * pow2((51 + k) as nat),
                    d2 == hidden_bit() * qi - pi * pow2((51 + k) as nat),
            ;
        }
        bits
    } else {
        let e: u64 = 1023 - k;
        let mantissa: u64 = (significand - 0x10_0000_0000_0000) as u64;
        let bits: u64 = e * 0x10_0000_0000_0000 + mantissa;
        proof {
            lemma_fundamental_div_mod_converse(bits as int, hidden_bit(), e as int, mantissa as int);
            assert(1075 - e == s);
        }
        bits
    }
}


/// Why the explicit legacy selection stopped.
#[derive(Debug, Clone, Copy, PartialEq, Eq)]
pub enum GlowLegacyRefusalV1 {
    /// The viewing conditions gave a |ΔJ′| that is not finite (or not
    /// non-negative) for the state with these bytes.
    NonFiniteDeltaJ { bytes: [u8; 3] },
    /// The finite set of composites was empty.
    EmptyStream,
}

/// Progress of the explicit legacy target-or-maximum selection over the
/// reachable composites in alpha order. |ΔJ′| values are carried as bit
/// patterns of non-negative finite binary64 values, whose numeric order is
/// the order of the patterns.
#[derive(Debug, Clone, Copy, PartialEq, Eq)]
pub enum LegacySelectionV1 {
    /// No state has reached the target yet; `best` is the first state with
    /// the largest |ΔJ′| seen so far.
    Searching { best: Option<(QuantisedCompositeV1, u64)> },
    /// The first state whose |ΔJ′| reaches the target.
    Reached { state: QuantisedCompositeV1, achieved_dj_bits: u64 },
}

/// A measured |ΔJ′| the selection accepts: finite and non-negative.
pub open spec fn delta_j_admissible(bits: u64) -> bool {
    crate::binary64::is_finite(bits) && !crate::binary64::sign_bit(bits)
}

/// One step of the selection on the next state in alpha order and its
/// measured |ΔJ′|: the first state reaching the target is selected; before
/// that the best is replaced only by a strictly larger |ΔJ′|. Once a state
/// is selected later states are not looked at.
pub open spec fn legacy_step(
    selection: LegacySelectionV1,
    state: QuantisedCompositeV1,
    achieved_dj_bits: u64,
    target_dj_bits: u64,
) -> LegacySelectionV1 {
    match selection {
        LegacySelectionV1::Reached { .. } => selection,
        LegacySelectionV1::Searching { best } => if achieved_dj_bits >= target_dj_bits {
            LegacySelectionV1::Reached { state, achieved_dj_bits }
        } else if best is None || achieved_dj_bits > best->Some_0.1 {
            LegacySelectionV1::Searching { best: Some((state, achieved_dj_bits)) }
        } else {
            selection
        },
    }
}

/// The selection after every state of `measured`, in order, from nothing.
pub open spec fn legacy_fold(measured: Seq<(QuantisedCompositeV1, u64)>, target_dj_bits: u64) -> LegacySelectionV1
    decreases measured.len(),
{
    if measured.len() == 0 {
        LegacySelectionV1::Searching { best: None }
    } else {
        legacy_step(
            legacy_fold(measured.drop_last(), target_dj_bits),
            measured.last().0,
            measured.last().1,
            target_dj_bits,
        )
    }
}

/// Feeds the next state in alpha order and its measured |ΔJ′| (bit pattern)
/// to the selection. A |ΔJ′| that is not finite and non-negative stops the
/// selection with the state's bytes.
pub fn legacy_selection_step(
    selection: LegacySelectionV1,
    state: QuantisedCompositeV1,
    achieved_dj_bits: u64,
    target_dj_bits: u64,
) -> (next: Result<LegacySelectionV1, GlowLegacyRefusalV1>)
    requires
        target_in_domain(target_dj_bits),
    ensures
        !delta_j_admissible(achieved_dj_bits) ==> next == Err::<LegacySelectionV1, GlowLegacyRefusalV1>(
            GlowLegacyRefusalV1::NonFiniteDeltaJ { bytes: state.bytes },
        ),
        delta_j_admissible(achieved_dj_bits) ==> next == Ok::<LegacySelectionV1, GlowLegacyRefusalV1>(
            legacy_step(selection, state, achieved_dj_bits, target_dj_bits),
        ),
{
    if !(crate::binary64::bits_is_finite(achieved_dj_bits) && !crate::binary64::bits_sign(
        achieved_dj_bits,
    )) {
        return Err(GlowLegacyRefusalV1::NonFiniteDeltaJ { bytes: state.bytes });
    }
    match selection {
        LegacySelectionV1::Reached { .. } => Ok(selection),
        LegacySelectionV1::Searching { best } => {
            if achieved_dj_bits >= target_dj_bits {
                return Ok(LegacySelectionV1::Reached { state, achieved_dj_bits });
            }
            let replace = match best {
                None => true,
                Some((_, best_dj_bits)) => achieved_dj_bits > best_dj_bits,
            };
            if replace {
                Ok(LegacySelectionV1::Searching { best: Some((state, achieved_dj_bits)) })
            } else {
                Ok(selection)
            }
        },
    }
}

/// The outcome of the selection once the stream ends: the selected state
/// with `LegacyReached`, else the first maximum with `LegacyUnreachable`;
/// an empty stream is refused.
pub fn legacy_selection_finish(selection: LegacySelectionV1) -> (outcome: Result<
    (QuantisedCompositeV1, u64, GlowTargetStatus),
    GlowLegacyRefusalV1,
>)
    ensures
        outcome == (match selection {
            LegacySelectionV1::Reached { state, achieved_dj_bits } => Ok::<
                (QuantisedCompositeV1, u64, GlowTargetStatus),
                GlowLegacyRefusalV1,
            >((state, achieved_dj_bits, GlowTargetStatus::LegacyReached)),
            LegacySelectionV1::Searching { best: Some((state, achieved_dj_bits)) } => Ok((
                state,
                achieved_dj_bits,
                GlowTargetStatus::LegacyUnreachable,
            )),
            LegacySelectionV1::Searching { best: None } => Err(GlowLegacyRefusalV1::EmptyStream),
        }),
{
    match selection {
        LegacySelectionV1::Reached { state, achieved_dj_bits } => Ok(
            (state, achieved_dj_bits, GlowTargetStatus::LegacyReached),
        ),
        LegacySelectionV1::Searching { best: Some((state, achieved_dj_bits)) } => Ok(
            (state, achieved_dj_bits, GlowTargetStatus::LegacyUnreachable),
        ),
        LegacySelectionV1::Searching { best: None } => Err(GlowLegacyRefusalV1::EmptyStream),
    }
}

/// State `i` is the first whose |ΔJ′| reaches the target.
pub open spec fn first_reaching(measured: Seq<(QuantisedCompositeV1, u64)>, target_dj_bits: u64, i: int) -> bool {
    &&& 0 <= i < measured.len()
    &&& measured[i].1 >= target_dj_bits
    &&& forall|k: int| 0 <= k < i ==> #[trigger] measured[k].1 < target_dj_bits
}

/// No state's |ΔJ′| reaches the target.
pub open spec fn none_reaching(measured: Seq<(QuantisedCompositeV1, u64)>, target_dj_bits: u64) -> bool {
    forall|k: int| 0 <= k < measured.len() ==> #[trigger] measured[k].1 < target_dj_bits
}

/// State `j` is the first with the largest |ΔJ′|.
pub open spec fn first_maximum(measured: Seq<(QuantisedCompositeV1, u64)>, j: int) -> bool {
    &&& 0 <= j < measured.len()
    &&& forall|k: int| 0 <= k < measured.len() ==> #[trigger] measured[k].1 <= measured[j].1
    &&& forall|k: int| 0 <= k < j ==> #[trigger] measured[k].1 < measured[j].1
}

proof fn lemma_legacy_fold_shape(measured: Seq<(QuantisedCompositeV1, u64)>, target_dj_bits: u64)
    ensures
        measured.len() == 0 ==> legacy_fold(measured, target_dj_bits) == (LegacySelectionV1::Searching {
            best: None,
        }),
        legacy_fold(measured, target_dj_bits) is Reached ==> exists|i: int|
            first_reaching(measured, target_dj_bits, i) && legacy_fold(measured, target_dj_bits)
                == (LegacySelectionV1::Reached {
                state: measured[i].0,
                achieved_dj_bits: measured[i].1,
            }),
        legacy_fold(measured, target_dj_bits) is Searching ==> none_reaching(measured, target_dj_bits),
        legacy_fold(measured, target_dj_bits) is Searching && measured.len() > 0 ==> exists|j: int|
            first_maximum(measured, j) && legacy_fold(measured, target_dj_bits)
                == (LegacySelectionV1::Searching { best: Some(measured[j]) }),
    decreases measured.len(),
{
    if measured.len() > 0 {
        let p = measured.drop_last();
        let n = measured.len() - 1;
        let t = target_dj_bits;
        lemma_legacy_fold_shape(p, t);
        let r = legacy_fold(p, t);
        let last = measured[n];
        assert(measured.last() == last);
        assert forall|k: int| 0 <= k < n implies #[trigger] p[k] == measured[k] by {}
        if r is Reached {
            let i = choose|i: int|
                first_reaching(p, t, i) && r == (LegacySelectionV1::Reached {
                    state: p[i].0,
                    achieved_dj_bits: p[i].1,
                });
            assert(p[i] == measured[i]);
            assert forall|k: int| 0 <= k < i implies #[trigger] measured[k].1 < t by {
                assert(p[k] == measured[k]);
            }
            assert(first_reaching(measured, t, i));
        } else {
            assert forall|k: int| 0 <= k < n implies #[trigger] measured[k].1 < t by {
                assert(p[k] == measured[k]);
            }
            if last.1 >= t {
                assert(first_reaching(measured, t, n));
            } else {
                assert(none_reaching(measured, t));
                if n == 0 {
                    assert(first_maximum(measured, 0));
                } else {
                    let j = choose|j: int|
                        first_maximum(p, j) && r == (LegacySelectionV1::Searching { best: Some(p[j]) });
                    assert(p[j] == measured[j]);
                    if last.1 > p[j].1 {
                        assert forall|k: int| 0 <= k < measured.len() implies #[trigger] measured[k].1
                            <= measured[n].1 by {
                            if k < n {
                                assert(p[k] == measured[k]);
                            }
                        }
                        assert forall|k: int| 0 <= k < n implies #[trigger] measured[k].1 < measured[n].1 by {
                            assert(p[k] == measured[k]);
                        }
                        assert(first_maximum(measured, n));
                    } else {
                        assert forall|k: int| 0 <= k < measured.len() implies #[trigger] measured[k].1
                            <= measured[j].1 by {
                            if k < n {
                                assert(p[k] == measured[k]);
                            }
                        }
                        assert forall|k: int| 0 <= k < j implies #[trigger] measured[k].1 < measured[j].1 by {
                            assert(p[k] == measured[k]);
                        }
                        assert(first_maximum(measured, j));
                    }
                }
            }
        }
    }
}

/// The legacy rule over a whole measured stream: when some state's |ΔJ′|
/// reaches the target, the selection is the first such state; when none
/// does, it is the first state with the largest |ΔJ′|; only an empty stream
/// selects nothing.
pub proof fn lemma_legacy_selection_is_target_or_first_maximum(
    measured: Seq<(QuantisedCompositeV1, u64)>,
    target_dj_bits: u64,
)
    ensures
        measured.len() == 0 ==> legacy_fold(measured, target_dj_bits) == (LegacySelectionV1::Searching {
            best: None,
        }),
        !none_reaching(measured, target_dj_bits) ==> exists|i: int|
            first_reaching(measured, target_dj_bits, i) && legacy_fold(measured, target_dj_bits)
                == (LegacySelectionV1::Reached {
                state: measured[i].0,
                achieved_dj_bits: measured[i].1,
            }),
        none_reaching(measured, target_dj_bits) && measured.len() > 0 ==> exists|j: int|
            first_maximum(measured, j) && legacy_fold(measured, target_dj_bits)
                == (LegacySelectionV1::Searching { best: Some(measured[j]) }),
{
    lemma_legacy_fold_shape(measured, target_dj_bits);
    if none_reaching(measured, target_dj_bits) && measured.len() > 0 {
        if legacy_fold(measured, target_dj_bits) is Reached {
            let i = choose|i: int|
                first_reaching(measured, target_dj_bits, i) && legacy_fold(measured, target_dj_bits)
                    == (LegacySelectionV1::Reached {
                    state: measured[i].0,
                    achieved_dj_bits: measured[i].1,
                });
            assert(measured[i].1 < target_dj_bits);
        }
    }
}


/// The exact part of the two-layer glow recipe for a source colour: the
/// halo is the source's canonical `#RRGGBB` text, and an exactly neutral
/// source (`r = g = b`) gets a core without hue.
pub open spec fn glow_source_plan(source: Srgb8) -> (Seq<char>, bool) {
    (hex_text(source), source.r == source.g && source.g == source.b)
}

/// Parses the source of the glow recipe and returns the halo's canonical
/// hex text and whether the source is an exact sRGB8 neutral, whose core
/// keeps no hue. A text that is not a hex colour is returned as the error.
pub fn glow_source_halo_and_neutrality(source_hex: &str) -> (plan: Result<(String, bool), String>)
    ensures
        match parse_hex_spec(source_hex@) {
            Some(c) => plan matches Ok((halo, neutral)) && (halo@, neutral) == glow_source_plan(c)
                && halo@ == hex_text(c) && (neutral <==> (c.r == c.g && c.g == c.b)),
            None => plan matches Err(e) && e@ == source_hex@,
        },
{
    let source = match parse_srgb8(source_hex) {
        Ok(c) => c,
        Err(e) => return Err(e),
    };
    let neutral = source.r == source.g && source.g == source.b;
    Ok((source.to_hex(), neutral))
}

/// The glow source is neutral exactly when its three bytes are equal: a
/// source with two equal channels and a third different one (such as
/// `#FFFF00` or `#8080FF`) keeps its hue; its halo is its canonical text,
/// which parses back to the source.
pub proof fn lemma_glow_source_neutral_iff_all_channels_equal(source: Srgb8)
    ensures
        glow_source_plan(source).1 <==> (source.r == source.g && source.g == source.b),
        (source.r == source.g && source.g != source.b) ==> !glow_source_plan(source).1,
        (source.r != source.g) ==> !glow_source_plan(source).1,
        parse_hex_spec(glow_source_plan(source).0) == Some(source),
{
    crate::hex::lemma_hex_text_parses_back(source);
}
} // verus!
