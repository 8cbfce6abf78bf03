//! Context-bound Labpics Colors Space occurrences.
//!
//! Encoded output, a framed tristimulus sample, an immutable appearance
//! context and the separately named views derived from them are different
//! values. A sample is admitted only when every component is finite and
//! non-negative; an occurrence binds one sample to one context of exactly the
//! same colorimetric frame; a modeled occurrence keeps the encoded signal and
//! transform binding it was derived from beside that identity.
//!
//! Floating-point inputs are carried as their binary64 bit patterns: the
//! colorimetric and appearance arithmetic that produces them happens outside
//! this module, which decides admission, identity and provenance.
use vstd::prelude::*;
use crate::binary64::{
    bits_canonical_zero, bits_is_finite, bits_is_zero, bits_sign, canonical_zero, is_below_zero,
    is_finite, is_zero, sign_bit, ONE_BITS, THREE_SIXTY_BITS,
};
use crate::hex::Srgb8;

verus! {

/// A registered encoded-output domain.
#[derive(Debug, Clone, Copy, PartialEq, Eq, PartialOrd, Ord, Hash, Structural)]
pub enum OutputProfileId {
    Iec61966Srgb8D65V1,
}

/// Exact encoded channels together with the output profile that gives them
/// meaning.
#[derive(Debug, Clone, Copy, PartialEq, Eq, PartialOrd, Ord, Hash, Structural)]
pub struct ColorSignal {
    srgb8: Srgb8,
    output_profile: OutputProfileId,
}

impl ColorSignal {
    /// Encoded channels of the signal.
    pub closed spec fn spec_srgb8(self) -> Srgb8 {
        self.srgb8
    }

    /// Output profile of the signal.
    pub closed spec fn spec_output_profile(self) -> OutputProfileId {
        self.output_profile
    }

    /// The only admitted encoded signal: sRGB8 channels under the IEC 61966
    /// D65 profile. No free channel/profile pairing can be formed.
    pub fn from_srgb8(srgb8: Srgb8) -> (signal: Self)
        ensures
            signal.spec_srgb8() == srgb8,
            signal.spec_output_profile() == OutputProfileId::Iec61966Srgb8D65V1,
    {
        Self { srgb8, output_profile: OutputProfileId::Iec61966Srgb8D65V1 }
    }

    /// Encoded channels of the signal.
    pub fn srgb8(self) -> (srgb8: Srgb8)
        ensures
            srgb8 == self.spec_srgb8(),
    {
        self.srgb8
    }

    /// Output profile of the signal.
    pub fn output_profile(self) -> (profile: OutputProfileId)
        ensures
            profile == self.spec_output_profile(),
    {
        self.output_profile
    }
}

/// Exact code release of one signal-to-tristimulus transform. It is not a
/// composition profile, renderer capability or observation.
#[derive(Debug, Clone, Copy, PartialEq, Eq, PartialOrd, Ord, Hash, Structural)]
pub enum ColorimetricTransformReleaseId {
    Iec61966Srgb8ToCie1931TwoDegreeXyzD65RelativeY1V1,
}

/// Standard observer of a colorimetric frame.
#[derive(Debug, Clone, Copy, PartialEq, Eq, PartialOrd, Ord, Hash, Structural)]
pub enum ObserverProfileId {
    Cie1931TwoDegreeV1,
}

/// Reference white of a colorimetric frame.
#[derive(Debug, Clone, Copy, PartialEq, Eq, PartialOrd, Ord, Hash, Structural)]
pub enum ReferenceWhiteId {
    Iec61966D65ChromaticityV1,
}

/// Scale of tristimulus values in a frame.
#[derive(Debug, Clone, Copy, PartialEq, Eq, PartialOrd, Ord, Hash, Structural)]
pub enum TristimulusScale {
    RelativeY1,
}

/// Release of a colorimetric frame.
#[derive(Debug, Clone, Copy, PartialEq, Eq, PartialOrd, Ord, Hash, Structural)]
pub enum ColorimetricFrameReleaseId {
    XyzV1,
}

/// Everything required to interpret one XYZ triple.
#[derive(Debug, Clone, Copy, PartialEq, Eq, PartialOrd, Ord, Hash, Structural)]
pub struct ColorimetricFrameId {
    observer: ObserverProfileId,
    reference_white: ReferenceWhiteId,
    scale: TristimulusScale,
    release: ColorimetricFrameReleaseId,
}

/// The canonical result frame of the registered encoded-sRGB8 transform.
pub open spec fn iec_srgb_d65_xyz_frame() -> ColorimetricFrameId {
    ColorimetricFrameId::spec_registered(
        ObserverProfileId::Cie1931TwoDegreeV1,
        ReferenceWhiteId::Iec61966D65ChromaticityV1,
        TristimulusScale::RelativeY1,
        ColorimetricFrameReleaseId::XyzV1,
    )
}

impl ColorimetricFrameId {
    /// The frame made of these four parts.
    pub closed spec fn spec_registered(
        observer: ObserverProfileId,
        reference_white: ReferenceWhiteId,
        scale: TristimulusScale,
        release: ColorimetricFrameReleaseId,
    ) -> Self {
        ColorimetricFrameId { observer, reference_white, scale, release }
    }

    /// Observer of the frame.
    pub closed spec fn spec_observer(self) -> ObserverProfileId {
        self.observer
    }

    /// Reference white of the frame.
    pub closed spec fn spec_reference_white(self) -> ReferenceWhiteId {
        self.reference_white
    }

    /// Scale of the frame.
    pub closed spec fn spec_scale(self) -> TristimulusScale {
        self.scale
    }

    /// Release of the frame.
    pub closed spec fn spec_release(self) -> ColorimetricFrameReleaseId {
        self.release
    }

    /// The canonical result frame of the registered encoded-sRGB8 transform:
    /// CIE 1931 2° observer, IEC D65 white, relative `Y = 1`, XYZ release.
    pub fn iec_srgb_d65_xyz_v1() -> (frame: Self)
        ensures
            frame == iec_srgb_d65_xyz_frame(),
            frame.spec_observer() == ObserverProfileId::Cie1931TwoDegreeV1,
            frame.spec_reference_white() == ReferenceWhiteId::Iec61966D65ChromaticityV1,
            frame.spec_scale() == TristimulusScale::RelativeY1,
            frame.spec_release() == ColorimetricFrameReleaseId::XyzV1,
    {
        Self::registered(
            ObserverProfileId::Cie1931TwoDegreeV1,
            ReferenceWhiteId::Iec61966D65ChromaticityV1,
            TristimulusScale::RelativeY1,
            ColorimetricFrameReleaseId::XyzV1,
        )
    }

    fn registered(
        observer: ObserverProfileId,
        reference_white: ReferenceWhiteId,
        scale: TristimulusScale,
        release: ColorimetricFrameReleaseId,
    ) -> (frame: Self)
        ensures
            frame == Self::spec_registered(observer, reference_white, scale, release),
            frame.spec_observer() == observer,
            frame.spec_reference_white() == reference_white,
            frame.spec_scale() == scale,
            frame.spec_release() == release,
    {
        ColorimetricFrameId { observer, reference_white, scale, release }
    }

    /// Observer of the frame.
    pub fn observer(self) -> (observer: ObserverProfileId)
        ensures
            observer == self.spec_observer(),
    {
        self.observer
    }

    /// Reference white of the frame.
    pub fn reference_white(self) -> (white: ReferenceWhiteId)
        ensures
            white == self.spec_reference_white(),
    {
        self.reference_white
    }

    /// Scale of the frame.
    pub fn scale(self) -> (scale: TristimulusScale)
        ensures
            scale == self.spec_scale(),
    {
        self.scale
    }

    /// Release of the frame.
    pub fn release(self) -> (release: ColorimetricFrameReleaseId)
        ensures
            release == self.spec_release(),
    {
        self.release
    }
}

/// The one closed binding admitted for encoded sRGB8: output profile,
/// transform release and result frame form one tuple and cannot be mixed.
#[derive(Debug, Clone, Copy, PartialEq, Eq, PartialOrd, Ord, Hash, Structural)]
pub enum AdmittedSrgb8TristimulusBindingV1 {
    Iec61966Srgb8ToCie1931TwoDegreeXyzD65RelativeY1V1,
}

/// Frame of the samples a binding produces.
pub open spec fn result_frame_of(binding: AdmittedSrgb8TristimulusBindingV1) -> ColorimetricFrameId {
    match binding {
        AdmittedSrgb8TristimulusBindingV1::Iec61966Srgb8ToCie1931TwoDegreeXyzD65RelativeY1V1 => {
            iec_srgb_d65_xyz_frame()
        },
    }
}

/// The admitted sRGB8 binding.
pub const ADMITTED_SRGB8_TRISTIMULUS_BINDING_V1: AdmittedSrgb8TristimulusBindingV1 =
    AdmittedSrgb8TristimulusBindingV1::Iec61966Srgb8ToCie1931TwoDegreeXyzD65RelativeY1V1;

impl AdmittedSrgb8TristimulusBindingV1 {
    /// Output profile the binding accepts.
    pub fn signal_output_profile(self) -> (profile: OutputProfileId)
        ensures
            profile == OutputProfileId::Iec61966Srgb8D65V1,
    {
        match self {
            Self::Iec61966Srgb8ToCie1931TwoDegreeXyzD65RelativeY1V1 => {
                OutputProfileId::Iec61966Srgb8D65V1
            },
        }
    }

    /// Transform release the binding runs.
    pub fn transform_release(self) -> (release: ColorimetricTransformReleaseId)
        ensures
            release
                == ColorimetricTransformReleaseId::Iec61966Srgb8ToCie1931TwoDegreeXyzD65RelativeY1V1,
    {
        match self {
            Self::Iec61966Srgb8ToCie1931TwoDegreeXyzD65RelativeY1V1 => {
                ColorimetricTransformReleaseId::Iec61966Srgb8ToCie1931TwoDegreeXyzD65RelativeY1V1
            },
        }
    }

    /// Frame of the samples the binding produces.
    pub fn result_frame(self) -> (frame: ColorimetricFrameId)
        ensures
            frame == result_frame_of(self),
            frame == iec_srgb_d65_xyz_frame(),
    {
        match self {
            Self::Iec61966Srgb8ToCie1931TwoDegreeXyzD65RelativeY1V1 => {
                ColorimetricFrameId::iec_srgb_d65_xyz_v1()
            },
        }
    }
}

/// Why a binary64 input left its numeric domain.
#[derive(Debug, Clone, Copy, PartialEq, Eq, Structural)]
pub enum NumericDomainError {
    NonFinite,
    Negative,
    NotPositive,
    AboveOne,
    HueOutOfRange,
}

/// Admission of a finite non-negative value: its canonical pattern
/// (`-0.0` becomes `+0.0`), or the reason it is refused.
pub open spec fn admit_non_negative(bits: u64) -> Result<u64, NumericDomainError> {
    if !is_finite(bits) {
        Err(NumericDomainError::NonFinite)
    } else if is_below_zero(bits) {
        Err(NumericDomainError::Negative)
    } else {
        Ok(canonical_zero(bits))
    }
}

/// Admission of a finite coordinate of any sign, with canonical zero.
pub open spec fn admit_coordinate(bits: u64) -> Result<u64, NumericDomainError> {
    if !is_finite(bits) {
        Err(NumericDomainError::NonFinite)
    } else {
        Ok(canonical_zero(bits))
    }
}

/// Admission of a hue angle in `[0, 360)` degrees, with canonical zero.
pub open spec fn admit_hue(bits: u64) -> Result<u64, NumericDomainError> {
    if !is_finite(bits) {
        Err(NumericDomainError::NonFinite)
    } else if is_below_zero(bits) || (!sign_bit(bits) && bits >= THREE_SIXTY_BITS) {
        Err(NumericDomainError::HueOutOfRange)
    } else {
        Ok(canonical_zero(bits))
    }
}

/// Finite, non-negative binary64 value with canonical positive zero.
#[derive(Debug, Clone, Copy, PartialEq, Eq, PartialOrd, Ord, Hash, Structural)]
struct FiniteNonNegative {
    bits: u64,
}

impl FiniteNonNegative {
    #[verifier::type_invariant]
    spec fn admitted(self) -> bool {
        admit_non_negative(self.bits) == Ok::<u64, NumericDomainError>(self.bits)
    }

    fn new(bits: u64) -> (value: Result<Self, NumericDomainError>)
        ensures
            match value {
                Ok(v) => admit_non_negative(bits) == Ok::<u64, NumericDomainError>(v.bits),
                Err(e) => admit_non_negative(bits) == Err::<u64, NumericDomainError>(e),
            },
    {
        if !bits_is_finite(bits) {
            return Err(NumericDomainError::NonFinite);
        }
        if bits_sign(bits) && !bits_is_zero(bits) {
            return Err(NumericDomainError::Negative);
        }
        let canonical = bits_canonical_zero(bits);
        proof {
            assert(canonical < 0x8000_0000_0000_0000);
            assert(canonical as int % 0x8000_0000_0000_0000 == canonical as int);
        }
        Ok(Self { bits: canonical })
    }

    fn get(self) -> (bits: u64)
        ensures
            bits == self.bits,
            admit_non_negative(bits) == Ok::<u64, NumericDomainError>(bits),
    {
        proof {
            use_type_invariant(self);
        }
        self.bits
    }
}

/// A tristimulus component.
#[derive(Debug, Clone, Copy, PartialEq, Eq, PartialOrd, Ord, Hash, Structural)]
pub enum TristimulusComponentV1 {
    X,
    Y,
    Z,
}

/// A refused tristimulus component and the reason.
#[derive(Debug, Clone, Copy, PartialEq, Eq, Structural)]
pub struct TristimulusDomainErrorV1 {
    pub component: TristimulusComponentV1,
    pub reason: NumericDomainError,
}

impl TristimulusDomainErrorV1 {
    /// The refused component.
    pub fn component(self) -> (component: TristimulusComponentV1)
        ensures
            component == self.component,
    {
        self.component
    }

    /// Why it was refused.
    pub fn reason(self) -> (reason: NumericDomainError)
        ensures
            reason == self.reason,
    {
        self.reason
    }
}

/// Admission of an XYZ triple, component by component in `X, Y, Z` order:
/// the canonical patterns, or the first refused component.
pub open spec fn admit_xyz(xyz: Seq<u64>) -> Result<Seq<u64>, TristimulusDomainErrorV1> {
    match (admit_non_negative(xyz[0]), admit_non_negative(xyz[1]), admit_non_negative(xyz[2])) {
        (Err(reason), _, _) => Err(
            TristimulusDomainErrorV1 { component: TristimulusComponentV1::X, reason },
        ),
        (Ok(_), Err(reason), _) => Err(
            TristimulusDomainErrorV1 { component: TristimulusComponentV1::Y, reason },
        ),
        (Ok(_), Ok(_), Err(reason)) => Err(
            TristimulusDomainErrorV1 { component: TristimulusComponentV1::Z, reason },
        ),
        (Ok(x), Ok(y), Ok(z)) => Ok(seq![x, y, z]),
    }
}

/// One finite XYZ point together with the identity of its colorimetric
/// frame.
#[derive(Debug, Clone, Copy, PartialEq, Eq, Hash, Structural)]
pub struct TristimulusSample {
    x: FiniteNonNegative,
    y: FiniteNonNegative,
    z: FiniteNonNegative,
    frame: ColorimetricFrameId,
}

impl TristimulusSample {
    /// Bit patterns of the three components, in `X, Y, Z` order.
    pub closed spec fn spec_xyz(self) -> Seq<u64> {
        seq![self.x.bits, self.y.bits, self.z.bits]
    }

    /// Frame of the sample.
    pub closed spec fn spec_frame(self) -> ColorimetricFrameId {
        self.frame
    }

    /// Admits an XYZ triple, given by bit patterns, in a frame: every
    /// component must be finite and non-negative; `-0.0` is stored as `+0.0`.
    pub fn try_from_registered_xyz(xyz: [u64; 3], frame: ColorimetricFrameId) -> (sample: Result<
        Self,
        TristimulusDomainErrorV1,
    >)
        ensures
            match sample {
                Ok(s) => admit_xyz(xyz@) == Ok::<Seq<u64>, TristimulusDomainErrorV1>(s.spec_xyz())
                    && s.spec_frame() == frame,
                Err(e) => admit_xyz(xyz@) == Err::<Seq<u64>, TristimulusDomainErrorV1>(e),
            },
    {
        let x = match FiniteNonNegative::new(xyz[0]) {
            Ok(v) => v,
            Err(reason) => {
                return Err(TristimulusDomainErrorV1 { component: TristimulusComponentV1::X, reason })
            },
        };
        let y = match FiniteNonNegative::new(xyz[1]) {
            Ok(v) => v,
            Err(reason) => {
                return Err(TristimulusDomainErrorV1 { component: TristimulusComponentV1::Y, reason })
            },
        };
        let z = match FiniteNonNegative::new(xyz[2]) {
            Ok(v) => v,
            Err(reason) => {
                return Err(TristimulusDomainErrorV1 { component: TristimulusComponentV1::Z, reason })
            },
        };
        let sample = Self { x, y, z, frame };
        assert(admit_xyz(xyz@) == Ok::<Seq<u64>, TristimulusDomainErrorV1>(sample.spec_xyz()));
        Ok(sample)
    }

    /// Bit patterns of the three components, in `X, Y, Z` order; each is
    /// finite and non-negative, and zero is `+0.0`.
    pub fn xyz_bits(self) -> (xyz: [u64; 3])
        ensures
            xyz@ == self.spec_xyz(),
            admit_xyz(xyz@) == Ok::<Seq<u64>, TristimulusDomainErrorV1>(xyz@),
    {
        let xyz = [self.x.get(), self.y.get(), self.z.get()];
        assert(xyz@ =~= self.spec_xyz());
        xyz
    }

    /// Frame of the sample.
    pub fn frame(self) -> (frame: ColorimetricFrameId)
        ensures
            frame == self.spec_frame(),
    {
        self.frame
    }
}

/// Content-bound provenance of one modeled transform: the encoded signal and
/// the binding that lowered it.
#[derive(Debug, Clone, Copy, PartialEq, Eq, Hash, Structural)]
pub struct ModeledTristimulusProvenanceV1 {
    source_signal: ColorSignal,
    binding: AdmittedSrgb8TristimulusBindingV1,
}

impl ModeledTristimulusProvenanceV1 {
    /// Encoded signal the sample was derived from.
    pub closed spec fn spec_source_signal(self) -> ColorSignal {
        self.source_signal
    }

    /// Binding that lowered the signal.
    pub closed spec fn spec_binding(self) -> AdmittedSrgb8TristimulusBindingV1 {
        self.binding
    }

    /// Encoded signal the sample was derived from.
    pub fn source_signal(self) -> (signal: ColorSignal)
        ensures
            signal == self.spec_source_signal(),
    {
        self.source_signal
    }

    /// Binding that lowered the signal.
    pub fn binding(self) -> (binding: AdmittedSrgb8TristimulusBindingV1)
        ensures
            binding == self.spec_binding(),
    {
        self.binding
    }
}

/// Replayable colorimetric derivation under one admitted binding. It is not
/// a renderer capability, a render or human observation, or a certified
/// field bound.
#[derive(Debug, Clone, Copy, PartialEq, Eq, Hash, Structural)]
pub struct ModeledTristimulusDerivationV1 {
    sample: TristimulusSample,
    provenance: ModeledTristimulusProvenanceV1,
}

/// The sample a binding yields for a signal whose registered transform gave
/// the XYZ patterns `lowered`: the admitted triple in the binding's result
/// frame.
pub open spec fn sample_from_lowered(
    lowered: Seq<u64>,
    binding: AdmittedSrgb8TristimulusBindingV1,
    sample: TristimulusSample,
) -> bool {
    admit_xyz(lowered) == Ok::<Seq<u64>, TristimulusDomainErrorV1>(sample.spec_xyz())
        && sample.spec_frame() == result_frame_of(binding)
}

impl ModeledTristimulusDerivationV1 {
    /// The derived sample.
    pub closed spec fn spec_sample(self) -> TristimulusSample {
        self.sample
    }

    /// Provenance of the sample.
    pub closed spec fn spec_provenance(self) -> ModeledTristimulusProvenanceV1 {
        self.provenance
    }

    /// The derived sample.
    pub fn sample(self) -> (sample: TristimulusSample)
        ensures
            sample == self.spec_sample(),
    {
        self.sample
    }

    /// Provenance of the sample.
    pub fn provenance(self) -> (provenance: ModeledTristimulusProvenanceV1)
        ensures
            provenance == self.spec_provenance(),
    {
        self.provenance
    }

    /// Replays the derivation from its provenance, given the XYZ patterns
    /// `lowered` that the registered transform yields for the recorded
    /// signal.
    pub fn replay(self, lowered: [u64; 3]) -> (replayed: Result<
        TristimulusSample,
        TristimulusDomainErrorV1,
    >)
        ensures
            match replayed {
                Ok(s) => sample_from_lowered(lowered@, self.spec_provenance().spec_binding(), s),
                Err(e) => admit_xyz(lowered@) == Err::<Seq<u64>, TristimulusDomainErrorV1>(e),
            },
    {
        derive_sample_with_binding(self.provenance.source_signal, self.provenance.binding, lowered)
    }
}

fn admitted_binding(output_profile: OutputProfileId) -> (binding:
    AdmittedSrgb8TristimulusBindingV1)
    ensures
        binding == ADMITTED_SRGB8_TRISTIMULUS_BINDING_V1,
{
    match output_profile {
        OutputProfileId::Iec61966Srgb8D65V1 => ADMITTED_SRGB8_TRISTIMULUS_BINDING_V1,
    }
}

fn derive_sample_with_binding(
    signal: ColorSignal,
    binding: AdmittedSrgb8TristimulusBindingV1,
    lowered: [u64; 3],
) -> (sample: Result<TristimulusSample, TristimulusDomainErrorV1>)
    ensures
        match sample {
            Ok(s) => sample_from_lowered(lowered@, binding, s),
            Err(e) => admit_xyz(lowered@) == Err::<Seq<u64>, TristimulusDomainErrorV1>(e),
        },
{
    TristimulusSample::try_from_registered_xyz(lowered, binding.result_frame())
}

/// Derives one modeled tristimulus from an encoded sRGB8 signal, given the
/// XYZ patterns `lowered` that the registered transform yields for it. The
/// derivation records the signal and the admitted binding beside the sample.
pub fn derive_modeled_tristimulus_v1(signal: ColorSignal, lowered: [u64; 3]) -> (derivation:
    Result<ModeledTristimulusDerivationV1, TristimulusDomainErrorV1>)
    ensures
        match derivation {
            Ok(d) => {
                &&& sample_from_lowered(lowered@, ADMITTED_SRGB8_TRISTIMULUS_BINDING_V1, d.spec_sample())
                &&& d.spec_provenance().spec_source_signal() == signal
                &&& d.spec_provenance().spec_binding() == ADMITTED_SRGB8_TRISTIMULUS_BINDING_V1
            },
            Err(e) => admit_xyz(lowered@) == Err::<Seq<u64>, TristimulusDomainErrorV1>(e),
        },
{
    let binding = admitted_binding(signal.output_profile());
    let sample = match derive_sample_with_binding(signal, binding, lowered) {
        Ok(sample) => sample,
        Err(e) => return Err(e),
    };
    Ok(
        ModeledTristimulusDerivationV1 {
            sample,
            provenance: ModeledTristimulusProvenanceV1 { source_signal: signal, binding },
        },
    )
}

/// Schema release of the semantic viewing inputs.
#[derive(Debug, Clone, Copy, PartialEq, Eq, PartialOrd, Ord, Hash, Structural)]
pub enum AppearanceContextSchemaReleaseId {
    Ciecam16ViewingInputsV1,
}

/// Registered surround of a viewing context.
#[derive(Debug, Clone, Copy, PartialEq, Eq, PartialOrd, Ord, Hash, Structural)]
pub enum SurroundProfileId {
    AverageV1,
    DimV1,
    DarkV1,
}

/// A numeric field of a viewing context.
#[derive(Debug, Clone, Copy, PartialEq, Eq, PartialOrd, Ord, Hash, Structural)]
pub enum AppearanceContextFieldV1 {
    AdaptingLuminanceCdM2,
    BackgroundLuminanceRatio,
}

/// A refused context field and the reason.
#[derive(Debug, Clone, Copy, PartialEq, Eq, Structural)]
pub struct AppearanceContextDomainErrorV1 {
    pub field: AppearanceContextFieldV1,
    pub reason: NumericDomainError,
}

impl AppearanceContextDomainErrorV1 {
    /// The refused field.
    pub fn field(self) -> (field: AppearanceContextFieldV1)
        ensures
            field == self.field,
    {
        self.field
    }

    /// Why it was refused.
    pub fn reason(self) -> (reason: NumericDomainError)
        ensures
            reason == self.reason,
    {
        self.reason
    }
}

/// Admission of an adapting luminance: finite and strictly positive.
pub open spec fn admit_adapting_luminance(bits: u64) -> Result<u64, NumericDomainError> {
    match admit_non_negative(bits) {
        Err(e) => Err(e),
        Ok(v) => if is_zero(v) {
            Err(NumericDomainError::NotPositive)
        } else {
            Ok(v)
        },
    }
}

/// Admission of a background luminance ratio: finite, in `(0, 1]`.
pub open spec fn admit_background_ratio(bits: u64) -> Result<u64, NumericDomainError> {
    match admit_non_negative(bits) {
        Err(e) => Err(e),
        Ok(v) => if is_zero(v) {
            Err(NumericDomainError::NotPositive)
        } else if v > ONE_BITS {
            Err(NumericDomainError::AboveOne)
        } else {
            Ok(v)
        },
    }
}

/// Finite, strictly positive CIECAM16 adapting luminance in cd/m².
#[derive(Debug, Clone, Copy, PartialEq, Eq, PartialOrd, Ord, Hash, Structural)]
pub struct AdaptingLuminanceCdM2 {
    value: FiniteNonNegative,
}

impl AdaptingLuminanceCdM2 {
    /// Bit pattern of the luminance.
    pub closed spec fn spec_bits(self) -> u64 {
        self.value.bits
    }

    /// Admits a luminance given by its bit pattern.
    pub fn try_new(bits: u64) -> (luminance: Result<Self, AppearanceContextDomainErrorV1>)
        ensures
            match luminance {
                Ok(l) => admit_adapting_luminance(bits) == Ok::<u64, NumericDomainError>(
                    l.spec_bits(),
                ),
                Err(e) => e.field == AppearanceContextFieldV1::AdaptingLuminanceCdM2
                    && admit_adapting_luminance(bits) == Err::<u64, NumericDomainError>(e.reason),
            },
    {
        let field = AppearanceContextFieldV1::AdaptingLuminanceCdM2;
        let value = match FiniteNonNegative::new(bits) {
            Ok(v) => v,
            Err(reason) => return Err(AppearanceContextDomainErrorV1 { field, reason }),
        };
        if bits_is_zero(value.get()) {
            return Err(
                AppearanceContextDomainErrorV1 { field, reason: NumericDomainError::NotPositive },
            );
        }
        Ok(Self { value })
    }

    /// Bit pattern of the luminance: finite and strictly positive.
    pub fn get(self) -> (bits: u64)
        ensures
            bits == self.spec_bits(),
    {
        self.value.get()
    }
}

/// Finite CIECAM16 background ratio `Y_b / Y_w` in `(0, 1]`.
#[derive(Debug, Clone, Copy, PartialEq, Eq, PartialOrd, Ord, Hash, Structural)]
pub struct BackgroundLuminanceRatio {
    value: FiniteNonNegative,
}

impl BackgroundLuminanceRatio {
    /// Bit pattern of the ratio.
    pub closed spec fn spec_bits(self) -> u64 {
        self.value.bits
    }

    /// Admits a ratio given by its bit pattern.
    pub fn try_new(bits: u64) -> (ratio: Result<Self, AppearanceContextDomainErrorV1>)
        ensures
            match ratio {
                Ok(r) => admit_background_ratio(bits) == Ok::<u64, NumericDomainError>(
                    r.spec_bits(),
                ),
                Err(e) => e.field == AppearanceContextFieldV1::BackgroundLuminanceRatio
                    && admit_background_ratio(bits) == Err::<u64, NumericDomainError>(e.reason),
            },
    {
        let field = AppearanceContextFieldV1::BackgroundLuminanceRatio;
        let value = match FiniteNonNegative::new(bits) {
            Ok(v) => v,
            Err(reason) => return Err(AppearanceContextDomainErrorV1 { field, reason }),
        };
        let v = value.get();
        if bits_is_zero(v) {
            return Err(
                AppearanceContextDomainErrorV1 { field, reason: NumericDomainError::NotPositive },
            );
        }
        if v > ONE_BITS {
            return Err(
                AppearanceContextDomainErrorV1 { field, reason: NumericDomainError::AboveOne },
            );
        }
        Ok(Self { value })
    }

    /// Bit pattern of the ratio.
    pub fn get(self) -> (bits: u64)
        ensures
            bits == self.spec_bits(),
    {
        self.value.get()
    }
}

/// Content identity of immutable semantic viewing inputs. Derived
/// appearance-model constants are not part of it.
#[derive(Debug, Clone, Copy, PartialEq, Eq, PartialOrd, Ord, Hash, Structural)]
pub struct AppearanceContextId {
    schema_release: AppearanceContextSchemaReleaseId,
    frame: ColorimetricFrameId,
    adapting_luminance_cd_m2: AdaptingLuminanceCdM2,
    background_luminance_ratio: BackgroundLuminanceRatio,
    surround: SurroundProfileId,
}

impl AppearanceContextId {
    /// Schema release of the inputs.
    pub closed spec fn spec_schema_release(self) -> AppearanceContextSchemaReleaseId {
        self.schema_release
    }

    /// Frame of the context.
    pub closed spec fn spec_frame(self) -> ColorimetricFrameId {
        self.frame
    }

    /// Adapting luminance.
    pub closed spec fn spec_adapting_luminance(self) -> AdaptingLuminanceCdM2 {
        self.adapting_luminance_cd_m2
    }

    /// Background luminance ratio.
    pub closed spec fn spec_background_ratio(self) -> BackgroundLuminanceRatio {
        self.background_luminance_ratio
    }

    /// Surround profile.
    pub closed spec fn spec_surround(self) -> SurroundProfileId {
        self.surround
    }

    /// The context made of exactly these inputs.
    pub fn from_inputs(
        schema_release: AppearanceContextSchemaReleaseId,
        frame: ColorimetricFrameId,
        adapting_luminance_cd_m2: AdaptingLuminanceCdM2,
        background_luminance_ratio: BackgroundLuminanceRatio,
        surround: SurroundProfileId,
    ) -> (context: Self)
        ensures
            context.spec_schema_release() == schema_release,
            context.spec_frame() == frame,
            context.spec_adapting_luminance() == adapting_luminance_cd_m2,
            context.spec_background_ratio() == background_luminance_ratio,
            context.spec_surround() == surround,
    {
        Self {
            schema_release,
            frame,
            adapting_luminance_cd_m2,
            background_luminance_ratio,
            surround,
        }
    }

    /// Schema release of the inputs.
    pub fn schema_release(self) -> (release: AppearanceContextSchemaReleaseId)
        ensures
            release == self.spec_schema_release(),
    {
        self.schema_release
    }

    /// Frame of the context.
    pub fn frame(self) -> (frame: ColorimetricFrameId)
        ensures
            frame == self.spec_frame(),
    {
        self.frame
    }

    /// Bit pattern of the adapting luminance.
    pub fn adapting_luminance_cd_m2_bits(self) -> (bits: u64)
        ensures
            bits == self.spec_adapting_luminance().spec_bits(),
    {
        self.adapting_luminance_cd_m2.get()
    }

    /// Bit pattern of the background luminance ratio.
    pub fn background_luminance_ratio_bits(self) -> (bits: u64)
        ensures
            bits == self.spec_background_ratio().spec_bits(),
    {
        self.background_luminance_ratio.get()
    }

    /// Surround profile.
    pub fn surround_profile(self) -> (surround: SurroundProfileId)
        ensures
            surround == self.spec_surround(),
    {
        self.surround
    }
}

/// A finite hue angle in `[0, 360)` degrees. The absence of hue is a
/// [`HueState`], never `0°`.
#[derive(Debug, Clone, Copy, PartialEq, Eq, PartialOrd, Ord, Hash, Structural)]
pub struct HueAngle {
    bits: u64,
}

impl HueAngle {
    /// Bit pattern of the angle in degrees.
    pub closed spec fn spec_bits(self) -> u64 {
        self.bits
    }

    /// Admits an angle in degrees, given by its bit pattern.
    pub fn new(bits: u64) -> (angle: Result<Self, NumericDomainError>)
        ensures
            match angle {
                Ok(a) => admit_hue(bits) == Ok::<u64, NumericDomainError>(a.spec_bits()),
                Err(e) => admit_hue(bits) == Err::<u64, NumericDomainError>(e),
            },
    {
        if !bits_is_finite(bits) {
            return Err(NumericDomainError::NonFinite);
        }
        let negative = bits_sign(bits);
        if (negative && !bits_is_zero(bits)) || (!negative && bits >= THREE_SIXTY_BITS) {
            return Err(NumericDomainError::HueOutOfRange);
        }
        Ok(Self { bits: bits_canonical_zero(bits) })
    }

    /// Bit pattern of the angle in degrees.
    pub fn degrees_bits(self) -> (bits: u64)
        ensures
            bits == self.spec_bits(),
    {
        self.bits
    }
}

/// Opaque identity of an admitted powerless-hue rule. No rule is registered
/// yet, so no value of it can be made.
#[derive(Debug, Clone, Copy, PartialEq, Eq, PartialOrd, Ord, Hash, Structural)]
pub struct HuePowerlessProfileId {
    id: u32,
}

/// Whether a view has a hue, and which.
#[derive(Debug, Clone, Copy, PartialEq, Eq, PartialOrd, Ord, Hash, Structural)]
pub enum HueState {
    Defined(HueAngle),
    UndefinedExact,
    PowerlessBy(HuePowerlessProfileId),
}

/// Why an occurrence could not be formed.
#[derive(Debug, Clone, Copy, PartialEq, Eq, Structural)]
pub enum OccurrenceFormationError {
    FrameMismatch { stimulus: ColorimetricFrameId, context: ColorimetricFrameId },
}

/// LCS identity: one tristimulus sample bound to one immutable context of
/// the same frame. Whether the sample is modeled or measured belongs to its
/// provenance; forming the identity does not upgrade that claim.
#[derive(Debug, Clone, Copy, PartialEq, Eq, Structural)]
pub struct LcsOccurrence {
    sample: TristimulusSample,
    context: AppearanceContextId,
}

impl LcsOccurrence {
    #[verifier::type_invariant]
    spec fn same_frame(self) -> bool {
        self.sample.frame == self.context.frame
    }

    /// The bound sample.
    pub closed spec fn spec_sample(self) -> TristimulusSample {
        self.sample
    }

    /// The bound context.
    pub closed spec fn spec_context(self) -> AppearanceContextId {
        self.context
    }

    /// Binds a sample to a context; the two frames must be equal.
    pub fn in_context(sample: TristimulusSample, context: AppearanceContextId) -> (occurrence:
        Result<Self, OccurrenceFormationError>)
        ensures
            sample.spec_frame() == context.spec_frame() ==> (occurrence matches Ok(o)
                && o.spec_sample() == sample && o.spec_context() == context),
            sample.spec_frame() != context.spec_frame() ==> occurrence == Err::<
                Self,
                OccurrenceFormationError,
            >(
                OccurrenceFormationError::FrameMismatch {
                    stimulus: sample.spec_frame(),
                    context: context.spec_frame(),
                },
            ),
    {
        if sample.frame() != context.frame() {
            return Err(
                OccurrenceFormationError::FrameMismatch {
                    stimulus: sample.frame(),
                    context: context.frame(),
                },
            );
        }
        Ok(Self { sample, context })
    }

    /// The bound sample.
    pub fn sample(self) -> (sample: TristimulusSample)
        ensures
            sample == self.spec_sample(),
            sample.spec_frame() == self.spec_context().spec_frame(),
    {
        proof {
            use_type_invariant(self);
        }
        self.sample
    }

    /// The bound context.
    pub fn context(self) -> (context: AppearanceContextId)
        ensures
            context == self.spec_context(),
    {
        self.context
    }
}

/// Why replayable modeled provenance could not be bound to an occurrence.
/// Every mismatch is explicit; no encoded signal can be attached to an
/// unrelated sample or context.
#[derive(Debug, Clone, Copy, PartialEq, Eq, Structural)]
pub enum ModeledLcsOccurrenceFormationErrorV1 {
    Tristimulus(TristimulusDomainErrorV1),
    Formation(OccurrenceFormationError),
    ProvenanceReplayFailed(TristimulusDomainErrorV1),
    RecordedSampleDoesNotReplay { recorded: TristimulusSample, replayed: TristimulusSample },
    OccurrenceSampleMismatch { occurrence: TristimulusSample, modeled: TristimulusSample },
}

/// Outcome of checking a derivation against an occurrence, given what the
/// replay of the derivation gave: the replay must succeed, reproduce the
/// recorded sample, and that sample must be the occurrence's.
pub open spec fn modeled_binding_check(
    recorded: TristimulusSample,
    occurrence_sample: TristimulusSample,
    replayed: Result<TristimulusSample, TristimulusDomainErrorV1>,
) -> Result<(), ModeledLcsOccurrenceFormationErrorV1> {
    match replayed {
        Err(e) => Err(ModeledLcsOccurrenceFormationErrorV1::ProvenanceReplayFailed(e)),
        Ok(r) => if r != recorded {
            Err(
                ModeledLcsOccurrenceFormationErrorV1::RecordedSampleDoesNotReplay {
                    recorded,
                    replayed: r,
                },
            )
        } else if occurrence_sample != recorded {
            Err(
                ModeledLcsOccurrenceFormationErrorV1::OccurrenceSampleMismatch {
                    occurrence: occurrence_sample,
                    modeled: recorded,
                },
            )
        } else {
            Ok(())
        },
    }
}

/// One replayable modeled signal derivation bound to exactly one immutable
/// appearance context. The provenance stays beside the identity, so a bare
/// XYZ triple cannot impersonate the encoded signal that produced it.
#[derive(Debug, Clone, Copy, PartialEq, Eq, Structural)]
pub struct ModeledLcsOccurrenceV1 {
    derivation: ModeledTristimulusDerivationV1,
    occurrence: LcsOccurrence,
}

impl ModeledLcsOccurrenceV1 {
    #[verifier::type_invariant]
    spec fn same_sample(self) -> bool {
        self.occurrence.sample == self.derivation.sample
    }

    /// The derivation.
    pub closed spec fn spec_derivation(self) -> ModeledTristimulusDerivationV1 {
        self.derivation
    }

    /// The occurrence.
    pub closed spec fn spec_occurrence(self) -> LcsOccurrence {
        self.occurrence
    }

    /// Derives the sample of `signal` (whose registered transform gave the
    /// XYZ patterns `lowered`) and binds it to `context`. Both parts are
    /// formed here from the same sample, so no replay is needed.
    pub fn from_signal_in_context(
        signal: ColorSignal,
        lowered: [u64; 3],
        context: AppearanceContextId,
    ) -> (modeled: Result<Self, ModeledLcsOccurrenceFormationErrorV1>)
        ensures
            match admit_xyz(lowered@) {
                Err(e) => modeled == Err::<Self, ModeledLcsOccurrenceFormationErrorV1>(
                    ModeledLcsOccurrenceFormationErrorV1::Tristimulus(e),
                ),
                Ok(_) => if context.spec_frame() != iec_srgb_d65_xyz_frame() {
                    modeled == Err::<Self, ModeledLcsOccurrenceFormationErrorV1>(
                        ModeledLcsOccurrenceFormationErrorV1::Formation(
                            OccurrenceFormationError::FrameMismatch {
                                stimulus: iec_srgb_d65_xyz_frame(),
                                context: context.spec_frame(),
                            },
                        ),
                    )
                } else {
                    modeled matches Ok(m) && {
                        &&& sample_from_lowered(
                            lowered@,
                            ADMITTED_SRGB8_TRISTIMULUS_BINDING_V1,
                            m.spec_derivation().spec_sample(),
                        )
                        &&& m.spec_derivation().spec_provenance().spec_source_signal() == signal
                        &&& m.spec_derivation().spec_provenance().spec_binding()
                            == ADMITTED_SRGB8_TRISTIMULUS_BINDING_V1
                        &&& m.spec_occurrence().spec_sample() == m.spec_derivation().spec_sample()
                        &&& m.spec_occurrence().spec_context() == context
                    }
                },
            },
    {
        let derivation = match derive_modeled_tristimulus_v1(signal, lowered) {
            Ok(d) => d,
            Err(e) => return Err(ModeledLcsOccurrenceFormationErrorV1::Tristimulus(e)),
        };
        let occurrence = match LcsOccurrence::in_context(derivation.sample(), context) {
            Ok(o) => o,
            Err(e) => return Err(ModeledLcsOccurrenceFormationErrorV1::Formation(e)),
        };
        Ok(Self { derivation, occurrence })
    }

    /// Binds an existing occurrence to an existing derivation, given what
    /// replaying the derivation gave. The two may be unrelated, so the replay
    /// is checked before anything is bound.
    pub fn bind(
        occurrence: LcsOccurrence,
        derivation: ModeledTristimulusDerivationV1,
        replayed: Result<TristimulusSample, TristimulusDomainErrorV1>,
    ) -> (modeled: Result<Self, ModeledLcsOccurrenceFormationErrorV1>)
        ensures
            match modeled_binding_check(
                derivation.spec_sample(),
                occurrence.spec_sample(),
                replayed,
            ) {
                Err(e) => modeled == Err::<Self, ModeledLcsOccurrenceFormationErrorV1>(e),
                Ok(_) => modeled matches Ok(m) && m.spec_derivation() == derivation
                    && m.spec_occurrence() == occurrence,
            },
    {
        match Self::check_replay(derivation.sample(), occurrence.sample(), replayed) {
            Err(e) => Err(e),
            Ok(()) => Ok(Self { derivation, occurrence }),
        }
    }

    /// Checks this value against what replaying its derivation gave.
    pub fn verify(self, replayed: Result<TristimulusSample, TristimulusDomainErrorV1>) -> (checked:
        Result<(), ModeledLcsOccurrenceFormationErrorV1>)
        ensures
            checked == modeled_binding_check(
                self.spec_derivation().spec_sample(),
                self.spec_occurrence().spec_sample(),
                replayed,
            ),
    {
        Self::check_replay(self.derivation.sample(), self.occurrence.sample(), replayed)
    }

    fn check_replay(
        recorded: TristimulusSample,
        occurrence: TristimulusSample,
        replayed: Result<TristimulusSample, TristimulusDomainErrorV1>,
    ) -> (checked: Result<(), ModeledLcsOccurrenceFormationErrorV1>)
        ensures
            checked == modeled_binding_check(recorded, occurrence, replayed),
    {
        let replayed = match replayed {
            Ok(r) => r,
            Err(e) => return Err(ModeledLcsOccurrenceFormationErrorV1::ProvenanceReplayFailed(e)),
        };
        if replayed != recorded {
            return Err(
                ModeledLcsOccurrenceFormationErrorV1::RecordedSampleDoesNotReplay {
                    recorded,
                    replayed,
                },
            );
        }
        if occurrence != recorded {
            return Err(
                ModeledLcsOccurrenceFormationErrorV1::OccurrenceSampleMismatch {
                    occurrence,
                    modeled: recorded,
                },
            );
        }
        Ok(())
    }

    /// The derivation.
    pub fn derivation(self) -> (derivation: ModeledTristimulusDerivationV1)
        ensures
            derivation == self.spec_derivation(),
    {
        self.derivation
    }

    /// The occurrence; its sample is the derivation's.
    pub fn occurrence(self) -> (occurrence: LcsOccurrence)
        ensures
            occurrence == self.spec_occurrence(),
            occurrence.spec_sample() == self.spec_derivation().spec_sample(),
    {
        proof {
            use_type_invariant(self);
        }
        self.occurrence
    }

    /// Provenance of the derivation.
    pub fn provenance(self) -> (provenance: ModeledTristimulusProvenanceV1)
        ensures
            provenance == self.spec_derivation().spec_provenance(),
    {
        self.derivation.provenance()
    }

    /// The encoded signal the occurrence was derived from.
    pub fn signal(self) -> (signal: ColorSignal)
        ensures
            signal == self.spec_derivation().spec_provenance().spec_source_signal(),
    {
        self.provenance().source_signal()
    }
}

/// Formula and operation-order release of the rectangular Oklab view.
#[derive(Debug, Clone, Copy, PartialEq, Eq, PartialOrd, Ord, Hash, Structural)]
pub enum OklabViewReleaseId {
    Ottosson20210125XyzD65V1,
}

/// Formula and operation-order release of the contextual CAM16 view.
#[derive(Debug, Clone, Copy, PartialEq, Eq, PartialOrd, Ord, Hash, Structural)]
pub enum Cam16ViewReleaseId {
    LiEtAl2017Cie248ForwardV1,
}

/// Release discriminator that qualifies view derivation errors.
#[derive(Debug, Clone, Copy, PartialEq, Eq, PartialOrd, Ord, Hash, Structural)]
pub enum AppearanceViewReleaseIdV1 {
    Oklab(OklabViewReleaseId),
    Cam16(Cam16ViewReleaseId),
}

/// The current Oklab view release.
pub const OKLAB_VIEW_RELEASE_V1: OklabViewReleaseId = OklabViewReleaseId::Ottosson20210125XyzD65V1;

/// The current CAM16 view release.
pub const CAM16_VIEW_RELEASE_V1: Cam16ViewReleaseId = Cam16ViewReleaseId::LiEtAl2017Cie248ForwardV1;

/// Finite binary64 coordinate with canonical positive zero.
#[derive(Debug, Clone, Copy, PartialEq, Eq, PartialOrd, Ord, Hash, Structural)]
struct FiniteCoordinate {
    bits: u64,
}

impl FiniteCoordinate {
    fn new(bits: u64) -> (value: Result<Self, NumericDomainError>)
        ensures
            match value {
                Ok(v) => admit_coordinate(bits) == Ok::<u64, NumericDomainError>(v.bits),
                Err(e) => admit_coordinate(bits) == Err::<u64, NumericDomainError>(e),
            },
    {
        if !bits_is_finite(bits) {
            return Err(NumericDomainError::NonFinite);
        }
        Ok(Self { bits: bits_canonical_zero(bits) })
    }
}

/// A coordinate of a derived view.
#[derive(Debug, Clone, Copy, PartialEq, Eq, PartialOrd, Ord, Hash, Structural)]
pub enum AppearanceViewFieldV1 {
    OklabL,
    OklabA,
    OklabB,
    Cam16J,
    Cam16Q,
    Cam16C,
    Cam16M,
    Cam16S,
    Cam16Hue,
}

/// Why an appearance state could not be derived.
#[derive(Debug, Clone, Copy, PartialEq, Eq, Structural)]
pub enum AppearanceStateDerivationErrorV1 {
    UnsupportedFrame { frame: ColorimetricFrameId },
    NumericDomain {
        release: AppearanceViewReleaseIdV1,
        field: AppearanceViewFieldV1,
        reason: NumericDomainError,
    },
}

/// Rectangular Oklab geometry of one admitted XYZ(D65) stimulus: no hue, no
/// contextual correlate, no inverse and no setter.
#[derive(Debug, Clone, Copy, PartialEq, Eq, Hash, Structural)]
pub struct OklabViewV1 {
    release: OklabViewReleaseId,
    l: FiniteCoordinate,
    a: FiniteCoordinate,
    b: FiniteCoordinate,
}

impl OklabViewV1 {
    /// Bit patterns of `L, a, b`.
    pub closed spec fn spec_lab(self) -> Seq<u64> {
        seq![self.l.bits, self.a.bits, self.b.bits]
    }

    /// Release of the view.
    pub closed spec fn spec_release(self) -> OklabViewReleaseId {
        self.release
    }

    /// Release of the view.
    pub fn release(self) -> (release: OklabViewReleaseId)
        ensures
            release == self.spec_release(),
    {
        self.release
    }

    /// Bit pattern of `L`.
    pub fn l_bits(self) -> (bits: u64)
        ensures
            bits == self.spec_lab()[0],
    {
        self.l.bits
    }

    /// Bit pattern of `a`.
    pub fn a_bits(self) -> (bits: u64)
        ensures
            bits == self.spec_lab()[1],
    {
        self.a.bits
    }

    /// Bit pattern of `b`.
    pub fn b_bits(self) -> (bits: u64)
        ensures
            bits == self.spec_lab()[2],
    {
        self.b.bits
    }
}

/// The CAM16 forward correlates of one stimulus under one context, each by
/// its binary64 bit pattern.
#[derive(Debug, Clone, Copy, PartialEq, Eq, Hash, Structural)]
pub struct Cam16CorrelateBitsV1 {
    pub j: u64,
    pub q: u64,
    pub c: u64,
    pub m: u64,
    pub s: u64,
    pub h: u64,
}

/// CAM16 appearance correlates of one occurrence under its own context. The
/// hue is the CAM16 angular correlate only.
#[derive(Debug, Clone, Copy, PartialEq, Eq, Hash, Structural)]
pub struct Cam16ViewV1 {
    release: Cam16ViewReleaseId,
    j: FiniteNonNegative,
    q: FiniteNonNegative,
    c: FiniteNonNegative,
    m: FiniteNonNegative,
    s: FiniteNonNegative,
    hue: HueState,
}

impl Cam16ViewV1 {
    /// Bit patterns of `J, Q, C, M, s`.
    pub closed spec fn spec_correlates(self) -> Seq<u64> {
        seq![self.j.bits, self.q.bits, self.c.bits, self.m.bits, self.s.bits]
    }

    /// Hue of the view.
    pub closed spec fn spec_hue(self) -> HueState {
        self.hue
    }

    /// Release of the view.
    pub closed spec fn spec_release(self) -> Cam16ViewReleaseId {
        self.release
    }

    /// Release of the view.
    pub fn release(self) -> (release: Cam16ViewReleaseId)
        ensures
            release == self.spec_release(),
    {
        self.release
    }

    /// Bit pattern of lightness `J`.
    pub fn j_bits(self) -> (bits: u64)
        ensures
            bits == self.spec_correlates()[0],
    {
        self.j.get()
    }

    /// Bit pattern of brightness `Q`.
    pub fn q_bits(self) -> (bits: u64)
        ensures
            bits == self.spec_correlates()[1],
    {
        self.q.get()
    }

    /// Bit pattern of chroma `C`.
    pub fn c_bits(self) -> (bits: u64)
        ensures
            bits == self.spec_correlates()[2],
    {
        self.c.get()
    }

    /// Bit pattern of colourfulness `M`.
    pub fn m_bits(self) -> (bits: u64)
        ensures
            bits == self.spec_correlates()[3],
    {
        self.m.get()
    }

    /// Bit pattern of saturation `s`.
    pub fn s_bits(self) -> (bits: u64)
        ensures
            bits == self.spec_correlates()[4],
    {
        self.s.get()
    }

    /// Hue of the view.
    pub fn hue(self) -> (hue: HueState)
        ensures
            hue == self.spec_hue(),
    {
        self.hue
    }
}

/// Error for a refused view coordinate.
pub open spec fn view_error(
    release: AppearanceViewReleaseIdV1,
    field: AppearanceViewFieldV1,
    reason: NumericDomainError,
) -> AppearanceStateDerivationErrorV1 {
    AppearanceStateDerivationErrorV1::NumericDomain { release, field, reason }
}

/// Admission of an Oklab view from its `L, a, b` patterns: each must be
/// finite; the first refused coordinate names the error.
pub open spec fn admit_oklab(lab: Seq<u64>) -> Result<Seq<u64>, AppearanceStateDerivationErrorV1> {
    let release = AppearanceViewReleaseIdV1::Oklab(OKLAB_VIEW_RELEASE_V1);
    match (admit_coordinate(lab[0]), admit_coordinate(lab[1]), admit_coordinate(lab[2])) {
        (Err(r), _, _) => Err(view_error(release, AppearanceViewFieldV1::OklabL, r)),
        (Ok(_), Err(r), _) => Err(view_error(release, AppearanceViewFieldV1::OklabA, r)),
        (Ok(_), Ok(_), Err(r)) => Err(view_error(release, AppearanceViewFieldV1::OklabB, r)),
        (Ok(l), Ok(a), Ok(b)) => Ok(seq![l, a, b]),
    }
}

/// Whether a hue state is the one described by `hue`: exactly undefined for
/// `None`, the angle with that pattern for `Some`.
pub open spec fn hue_is(state: HueState, hue: Option<u64>) -> bool {
    match (state, hue) {
        (HueState::UndefinedExact, None) => true,
        (HueState::Defined(angle), Some(bits)) => angle.spec_bits() == bits,
        _ => false,
    }
}

/// Admission of a CAM16 view from its correlates: `J, Q, C, M, s` must each
/// be finite and non-negative (the first refused one names the error); when
/// `M` is zero the hue is exactly undefined (`None`), otherwise `h` must be an
/// angle in `[0, 360)`.
pub open spec fn admit_cam16(k: Cam16CorrelateBitsV1) -> Result<
    (Seq<u64>, Option<u64>),
    AppearanceStateDerivationErrorV1,
> {
    let release = AppearanceViewReleaseIdV1::Cam16(CAM16_VIEW_RELEASE_V1);
    if admit_non_negative(k.j) is Err {
        Err(view_error(release, AppearanceViewFieldV1::Cam16J, admit_non_negative(k.j)->Err_0))
    } else if admit_non_negative(k.q) is Err {
        Err(view_error(release, AppearanceViewFieldV1::Cam16Q, admit_non_negative(k.q)->Err_0))
    } else if admit_non_negative(k.c) is Err {
        Err(view_error(release, AppearanceViewFieldV1::Cam16C, admit_non_negative(k.c)->Err_0))
    } else if admit_non_negative(k.m) is Err {
        Err(view_error(release, AppearanceViewFieldV1::Cam16M, admit_non_negative(k.m)->Err_0))
    } else if admit_non_negative(k.s) is Err {
        Err(view_error(release, AppearanceViewFieldV1::Cam16S, admit_non_negative(k.s)->Err_0))
    } else if !is_zero(k.m) && admit_hue(k.h) is Err {
        Err(view_error(release, AppearanceViewFieldV1::Cam16Hue, admit_hue(k.h)->Err_0))
    } else {
        let correlates = seq![
            canonical_zero(k.j),
            canonical_zero(k.q),
            canonical_zero(k.c),
            canonical_zero(k.m),
            canonical_zero(k.s),
        ];
        if is_zero(k.m) {
            Ok((correlates, None))
        } else {
            Ok((correlates, Some(canonical_zero(k.h))))
        }
    }
}

fn view_numeric_error(
    release: AppearanceViewReleaseIdV1,
    field: AppearanceViewFieldV1,
    reason: NumericDomainError,
) -> (error: AppearanceStateDerivationErrorV1)
    ensures
        error == view_error(release, field, reason),
{
    AppearanceStateDerivationErrorV1::NumericDomain { release, field, reason }
}

/// Derives the Oklab view from the `L, a, b` patterns that the Oklab
/// projection gave for a sample.
pub fn derive_oklab_view_v1(lab: [u64; 3]) -> (view: Result<
    OklabViewV1,
    AppearanceStateDerivationErrorV1,
>)
    ensures
        match view {
            Ok(v) => admit_oklab(lab@) == Ok::<Seq<u64>, AppearanceStateDerivationErrorV1>(
                v.spec_lab(),
            ) && v.spec_release() == OKLAB_VIEW_RELEASE_V1,
            Err(e) => admit_oklab(lab@) == Err::<Seq<u64>, AppearanceStateDerivationErrorV1>(e),
        },
{
    let release = AppearanceViewReleaseIdV1::Oklab(OKLAB_VIEW_RELEASE_V1);
    let l = match FiniteCoordinate::new(lab[0]) {
        Ok(v) => v,
        Err(reason) => return Err(view_numeric_error(release, AppearanceViewFieldV1::OklabL, reason)),
    };
    let a = match FiniteCoordinate::new(lab[1]) {
        Ok(v) => v,
        Err(reason) => return Err(view_numeric_error(release, AppearanceViewFieldV1::OklabA, reason)),
    };
    let b = match FiniteCoordinate::new(lab[2]) {
        Ok(v) => v,
        Err(reason) => return Err(view_numeric_error(release, AppearanceViewFieldV1::OklabB, reason)),
    };
    let view = OklabViewV1 { release: OKLAB_VIEW_RELEASE_V1, l, a, b };
    assert(admit_oklab(lab@) == Ok::<Seq<u64>, AppearanceStateDerivationErrorV1>(view.spec_lab()));
    Ok(view)
}

fn admit_cam16_component(
    bits: u64,
    field: AppearanceViewFieldV1,
) -> (value: Result<FiniteNonNegative, AppearanceStateDerivationErrorV1>)
    ensures
        match value {
            Ok(v) => admit_non_negative(bits) == Ok::<u64, NumericDomainError>(v.bits),
            Err(e) => admit_non_negative(bits) is Err && e == view_error(
                AppearanceViewReleaseIdV1::Cam16(CAM16_VIEW_RELEASE_V1),
                field,
                admit_non_negative(bits)->Err_0,
            ),
        },
{
    match FiniteNonNegative::new(bits) {
        Ok(v) => Ok(v),
        Err(reason) => Err(
            view_numeric_error(AppearanceViewReleaseIdV1::Cam16(CAM16_VIEW_RELEASE_V1), field, reason),
        ),
    }
}

/// Derives the CAM16 view from the forward correlates that the CAM16 model
/// gave for a sample under its context.
pub fn derive_cam16_view_v1(correlates: Cam16CorrelateBitsV1) -> (view: Result<
    Cam16ViewV1,
    AppearanceStateDerivationErrorV1,
>)
    ensures
        match view {
            Ok(v) => admit_cam16(correlates) is Ok && admit_cam16(correlates)->Ok_0.0
                == v.spec_correlates() && hue_is(v.spec_hue(), admit_cam16(correlates)->Ok_0.1)
                && v.spec_release() == CAM16_VIEW_RELEASE_V1 && v.spec_correlates() == seq![
                canonical_zero(correlates.j),
                canonical_zero(correlates.q),
                canonical_zero(correlates.c),
                canonical_zero(correlates.m),
                canonical_zero(correlates.s),
            ],
            Err(e) => admit_cam16(correlates) == Err::<
                (Seq<u64>, Option<u64>),
                AppearanceStateDerivationErrorV1,
            >(e),
        },
{
    let j = match admit_cam16_component(correlates.j, AppearanceViewFieldV1::Cam16J) {
        Ok(v) => v,
        Err(e) => return Err(e),
    };
    let q = match admit_cam16_component(correlates.q, AppearanceViewFieldV1::Cam16Q) {
        Ok(v) => v,
        Err(e) => return Err(e),
    };
    let c = match admit_cam16_component(correlates.c, AppearanceViewFieldV1::Cam16C) {
        Ok(v) => v,
        Err(e) => return Err(e),
    };
    let m = match admit_cam16_component(correlates.m, AppearanceViewFieldV1::Cam16M) {
        Ok(v) => v,
        Err(e) => return Err(e),
    };
    let s = match admit_cam16_component(correlates.s, AppearanceViewFieldV1::Cam16S) {
        Ok(v) => v,
        Err(e) => return Err(e),
    };
    let hue = if bits_is_zero(m.get()) {
        HueState::UndefinedExact
    } else {
        match HueAngle::new(correlates.h) {
            Ok(angle) => HueState::Defined(angle),
            Err(reason) => {
                return Err(
                    view_numeric_error(
                        AppearanceViewReleaseIdV1::Cam16(CAM16_VIEW_RELEASE_V1),
                        AppearanceViewFieldV1::Cam16Hue,
                        reason,
                    ),
                )
            },
        }
    };
    let view = Cam16ViewV1 { release: CAM16_VIEW_RELEASE_V1, j, q, c, m, s, hue };
    Ok(view)
}

/// One-way appearance snapshot of exactly one occurrence: separately named
/// views that cannot be edited or inverted. The identity stays the
/// occurrence.
#[derive(Debug, Clone, Copy)]
pub struct AppearanceState {
    occurrence: LcsOccurrence,
    oklab: OklabViewV1,
    cam16: Cam16ViewV1,
}

impl AppearanceState {
    #[verifier::type_invariant]
    spec fn registered_frame(self) -> bool {
        self.occurrence.sample.frame == iec_srgb_d65_xyz_frame()
    }

    /// The occurrence the views describe.
    pub closed spec fn spec_occurrence(self) -> LcsOccurrence {
        self.occurrence
    }

    /// The Oklab view.
    pub closed spec fn spec_oklab(self) -> OklabViewV1 {
        self.oklab
    }

    /// The CAM16 view.
    pub closed spec fn spec_cam16(self) -> Cam16ViewV1 {
        self.cam16
    }

    /// Derives both views of an occurrence in the registered frame, given the
    /// Oklab `L, a, b` patterns of its sample and the CAM16 correlates of its
    /// sample under its context. Any other frame is refused before any view
    /// is looked at; then the Oklab view is admitted, then the CAM16 view.
    pub fn derive_v1(
        occurrence: LcsOccurrence,
        lab: [u64; 3],
        correlates: Cam16CorrelateBitsV1,
    ) -> (state: Result<Self, AppearanceStateDerivationErrorV1>)
        ensures
            occurrence.spec_sample().spec_frame() != iec_srgb_d65_xyz_frame() ==> state == Err::<
                Self,
                AppearanceStateDerivationErrorV1,
            >(
                AppearanceStateDerivationErrorV1::UnsupportedFrame {
                    frame: occurrence.spec_sample().spec_frame(),
                },
            ),
            occurrence.spec_sample().spec_frame() == iec_srgb_d65_xyz_frame() ==> match (
                admit_oklab(lab@),
                admit_cam16(correlates),
            ) {
                (Err(e), _) => state == Err::<Self, AppearanceStateDerivationErrorV1>(e),
                (Ok(_), Err(e)) => state == Err::<Self, AppearanceStateDerivationErrorV1>(e),
                (Ok(l), Ok((k, h))) => state matches Ok(st) && st.spec_occurrence() == occurrence
                    && st.spec_oklab().spec_lab() == l && st.spec_oklab().spec_release()
                    == OKLAB_VIEW_RELEASE_V1 && st.spec_cam16().spec_release() == CAM16_VIEW_RELEASE_V1
                    && st.spec_cam16().spec_correlates() == k
                    && hue_is(st.spec_cam16().spec_hue(), h),
            },
    {
        let frame = occurrence.sample().frame();
        if frame != ColorimetricFrameId::iec_srgb_d65_xyz_v1() {
            return Err(AppearanceStateDerivationErrorV1::UnsupportedFrame { frame });
        }
        let oklab = match derive_oklab_view_v1(lab) {
            Ok(v) => v,
            Err(e) => return Err(e),
        };
        let cam16 = match derive_cam16_view_v1(correlates) {
            Ok(v) => v,
            Err(e) => return Err(e),
        };
        Ok(Self { occurrence, oklab, cam16 })
    }

    /// The occurrence the views describe; its sample is in the registered
    /// frame.
    pub fn occurrence(self) -> (occurrence: LcsOccurrence)
        ensures
            occurrence == self.spec_occurrence(),
            occurrence.spec_sample().spec_frame() == iec_srgb_d65_xyz_frame(),
    {
        proof {
            use_type_invariant(self);
        }
        self.occurrence
    }

    /// The Oklab view.
    pub fn oklab(self) -> (view: OklabViewV1)
        ensures
            view == self.spec_oklab(),
    {
        self.oklab
    }

    /// The CAM16 view.
    pub fn cam16(self) -> (view: Cam16ViewV1)
        ensures
            view == self.spec_cam16(),
    {
        self.cam16
    }
}

/// Admission never lets a sign through: an admitted non-negative value, hue
/// or coordinate is finite, and an admitted non-negative value or hue has a
/// clear sign bit, so `-0.0` is stored as `+0.0`.
pub proof fn lemma_admitted_values_are_finite_and_unsigned(bits: u64)
    ensures
        admit_non_negative(bits) matches Ok(v) ==> is_finite(v) && !sign_bit(v),
        admit_hue(bits) matches Ok(v) ==> is_finite(v) && !sign_bit(v),
        admit_coordinate(bits) matches Ok(v) ==> is_finite(v),
{
}

/// Both signed zeros are admitted alike, as `+0.0`, by every admission.
pub proof fn lemma_signed_zeros_admit_alike(bits: u64)
    requires
        is_zero(bits),
    ensures
        admit_non_negative(bits) == Ok::<u64, NumericDomainError>(0),
        admit_coordinate(bits) == Ok::<u64, NumericDomainError>(0),
        admit_hue(bits) == Ok::<u64, NumericDomainError>(0),
{
}


/// A sample is determined by its three patterns and its frame, so replaying
/// a derivation with the lowering it was derived from gives back exactly the
/// recorded sample.
pub proof fn lemma_sample_is_determined_by_its_view(a: TristimulusSample, b: TristimulusSample)
    requires
        a.spec_xyz() == b.spec_xyz(),
        a.spec_frame() == b.spec_frame(),
    ensures
        a == b,
{
    assert(a.spec_xyz()[0] == b.spec_xyz()[0]);
    assert(a.spec_xyz()[1] == b.spec_xyz()[1]);
    assert(a.spec_xyz()[2] == b.spec_xyz()[2]);
}

/// An Oklab view is determined by its release and its `L, a, b` patterns.
/// Since `AppearanceState::derive_v1` admits the Oklab view from the `L, a,
/// b` it is given alone, two states derived from the same Oklab input have
/// the same Oklab view whatever their contexts; only the CAM16 view can
/// depend on the context.
pub proof fn lemma_oklab_view_is_determined_by_its_view(a: OklabViewV1, b: OklabViewV1)
    requires
        a.spec_lab() == b.spec_lab(),
        a.spec_release() == b.spec_release(),
    ensures
        a == b,
{
    assert(a.spec_lab()[0] == b.spec_lab()[0]);
    assert(a.spec_lab()[1] == b.spec_lab()[1]);
    assert(a.spec_lab()[2] == b.spec_lab()[2]);
}

/// Each admitted CAM16 correlate is kept under its own name: lightness `J`,
/// brightness `Q`, chroma `C`, colourfulness `M` and saturation `s` of the
/// view are the given `j, q, c, m, s` (with `-0.0` as `+0.0`), and each was
/// finite and non-negative. The hue is exactly undefined when `M` is zero
/// and otherwise the given angle.
pub proof fn lemma_cam16_correlates_keep_their_names(k: Cam16CorrelateBitsV1)
    requires
        admit_cam16(k) is Ok,
    ensures
        admit_cam16(k)->Ok_0.0[0] == canonical_zero(k.j),
        admit_cam16(k)->Ok_0.0[1] == canonical_zero(k.q),
        admit_cam16(k)->Ok_0.0[2] == canonical_zero(k.c),
        admit_cam16(k)->Ok_0.0[3] == canonical_zero(k.m),
        admit_cam16(k)->Ok_0.0[4] == canonical_zero(k.s),
        admit_cam16(k)->Ok_0.0.len() == 5,
        is_finite(k.j) && is_finite(k.q) && is_finite(k.c) && is_finite(k.m) && is_finite(k.s),
        !is_below_zero(k.j) && !is_below_zero(k.q) && !is_below_zero(k.c) && !is_below_zero(k.m)
            && !is_below_zero(k.s),
        is_zero(k.m) ==> admit_cam16(k)->Ok_0.1 is None,
        !is_zero(k.m) ==> admit_cam16(k)->Ok_0.1 == Some(canonical_zero(k.h)),
{
}
} // verus!
