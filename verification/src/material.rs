//! Two-layer material: an opaque tone base under a translucent tint whose
//! alpha is derived, not hand-written, over a corridor of backdrops.
//!
//! The corridor of backdrops is a box in encoded sRGB: per channel, a closed
//! interval inside `[0, 1]`. Its bounds arrive as binary64 bit patterns and
//! are checked channel by channel, so every failure names the bound and the
//! channel that caused it.
use vstd::prelude::*;
use vstd::string::*;
use crate::binary64::{canonical_zero, is_finite, is_zero, sign_bit, bits_canonical_zero, bits_is_finite, bits_is_zero, bits_sign, ONE_BITS};

verus! {

/// Numerical profile in which the material-alpha bound is characterised.
#[derive(Debug, Clone, Copy, PartialEq, Eq, Structural)]
#[non_exhaustive]
pub enum MaterialNumericalProfileV1 {
    /// Byte-scale affine source-over and the frozen legacy WCAG 2.1 (2018)
    /// `0.03928`/`powf` path in Rust IEEE-754 binary64; `powf` stays
    /// platform- and toolchain-dependent.
    EncodedSrgbByteScaleAffinePlatformBinary64PowfV1,
}

impl MaterialNumericalProfileV1 {
    /// Stable wire key.
    pub fn key(self) -> (key: &'static str)
        ensures
            key@ == "encoded-srgb-byte-scale-affine-platform-binary64-powf-v1"@,
    {
        match self {
            Self::EncodedSrgbByteScaleAffinePlatformBinary64PowfV1 => {
                "encoded-srgb-byte-scale-affine-platform-binary64-powf-v1"
            },
        }
    }
}

/// Honest class of the numerical guarantee of a chosen material alpha.
/// Alphas are carried as binary64 bit patterns.
#[derive(Debug, Clone, Copy, PartialEq, Eq, Structural)]
#[non_exhaustive]
pub enum MaterialAlphaGuaranteeV1 {
    /// A fixed-step binary partition: the upper candidate passed the floor
    /// again and the lower failed it again. Neither global monotonicity nor
    /// minimality across environments is claimed.
    BisectionBracketCharacterizedV1 {
        /// Number of executed bisection steps.
        iterations: u32,
        /// Last candidate measured below the floor.
        lower_alpha_bits: u64,
        /// Upper end of the candidate interval, which passed the floor again.
        upper_alpha_bits: u64,
        /// Numerical profile of the branch-sensitive contrast path.
        numerical_profile: MaterialNumericalProfileV1,
    },
    /// The transparent endpoint already holds the floor; no bisection.
    TransparentEndpointCharacterizedV1 { numerical_profile: MaterialNumericalProfileV1 },
    /// Even the opaque endpoint misses the floor; it is returned re-measured
    /// and marked degraded.
    OpaqueEndpointCharacterizedV1 { numerical_profile: MaterialNumericalProfileV1 },
}

impl MaterialAlphaGuaranteeV1 {
    /// Stable wire key.
    pub fn key(self) -> (key: &'static str)
        ensures
            self is BisectionBracketCharacterizedV1 ==> key@ == "bisection-bracket-characterized-v1"@,
            self is TransparentEndpointCharacterizedV1 ==> key@
                == "transparent-endpoint-characterized-v1"@,
            self is OpaqueEndpointCharacterizedV1 ==> key@ == "opaque-endpoint-characterized-v1"@,
    {
        match self {
            Self::BisectionBracketCharacterizedV1 { .. } => "bisection-bracket-characterized-v1",
            Self::TransparentEndpointCharacterizedV1 { .. } => {
                "transparent-endpoint-characterized-v1"
            },
            Self::OpaqueEndpointCharacterizedV1 { .. } => "opaque-endpoint-characterized-v1",
        }
    }

    /// The runtime class bound to the guarantee.
    pub fn numerical_profile(self) -> (profile: MaterialNumericalProfileV1)
        ensures
            profile == match self {
                MaterialAlphaGuaranteeV1::BisectionBracketCharacterizedV1 {
                    numerical_profile,
                    ..
                } => numerical_profile,
                MaterialAlphaGuaranteeV1::TransparentEndpointCharacterizedV1 {
                    numerical_profile,
                } => numerical_profile,
                MaterialAlphaGuaranteeV1::OpaqueEndpointCharacterizedV1 { numerical_profile } => {
                    numerical_profile
                },
            },
    {
        match self {
            Self::BisectionBracketCharacterizedV1 { numerical_profile, .. } => numerical_profile,
            Self::TransparentEndpointCharacterizedV1 { numerical_profile } => numerical_profile,
            Self::OpaqueEndpointCharacterizedV1 { numerical_profile } => numerical_profile,
        }
    }

    /// Number of bisection steps, for a bracket only.
    pub fn iterations(self) -> (iterations: Option<u32>)
        ensures
            iterations == match self {
                MaterialAlphaGuaranteeV1::BisectionBracketCharacterizedV1 { iterations, .. } => Some(
                    iterations,
                ),
                _ => None,
            },
    {
        match self {
            Self::BisectionBracketCharacterizedV1 { iterations, .. } => Some(iterations),
            Self::TransparentEndpointCharacterizedV1 { .. }
            | Self::OpaqueEndpointCharacterizedV1 { .. } => None,
        }
    }

    /// Bit patterns of the lower and upper characterised candidates, for a
    /// true threshold interval only.
    pub fn bracket_bits(self) -> (bracket: Option<(u64, u64)>)
        ensures
            bracket == match self {
                MaterialAlphaGuaranteeV1::BisectionBracketCharacterizedV1 {
                    lower_alpha_bits,
                    upper_alpha_bits,
                    ..
                } => Some((lower_alpha_bits, upper_alpha_bits)),
                _ => None,
            },
    {
        match self {
            Self::BisectionBracketCharacterizedV1 { lower_alpha_bits, upper_alpha_bits, .. } => Some(
                (lower_alpha_bits, upper_alpha_bits),
            ),
            Self::TransparentEndpointCharacterizedV1 { .. }
            | Self::OpaqueEndpointCharacterizedV1 { .. } => None,
        }
    }
}

/// Domain outcome of the material-alpha solve; an unreachable floor is not
/// an error.
#[derive(Debug, Clone, Copy, PartialEq, Eq, Structural)]
#[non_exhaustive]
pub enum MaterialAlphaStatusV1 {
    /// The chosen alpha holds the requested floor.
    Satisfied,
    /// The floor is unreachable even at alpha 1; the opaque endpoint is
    /// returned.
    Degraded,
}

impl MaterialAlphaStatusV1 {
    /// Stable wire key.
    pub fn key(self) -> (key: &'static str)
        ensures
            self is Satisfied ==> key@ == "satisfied"@,
            self is Degraded ==> key@ == "degraded"@,
    {
        match self {
            Self::Satisfied => "satisfied",
            Self::Degraded => "degraded",
        }
    }
}

/// An encoded RGB channel.
#[derive(Debug, Clone, Copy, PartialEq, Eq, Hash, Structural)]
pub enum RgbChannelV1 {
    Red,
    Green,
    Blue,
}

/// A bound of a backdrop box.
#[derive(Debug, Clone, Copy, PartialEq, Eq, Hash, Structural)]
pub enum BackdropBoundV1 {
    Min,
    Max,
}

/// Why a backdrop box was refused.
#[derive(Debug, Clone, Copy, PartialEq, Eq, Structural)]
pub enum BackdropBoxErrorV1 {
    /// A bound channel is NaN or infinite.
    NonFiniteChannel { bound: BackdropBoundV1, channel: RgbChannelV1 },
    /// A bound channel lies outside `[0, 1]`; `value` is its bit pattern.
    OutOfRangeChannel { bound: BackdropBoundV1, channel: RgbChannelV1, value: u64 },
    /// A channel's minimum exceeds its maximum; both by bit pattern.
    ReversedChannel { channel: RgbChannelV1, min: u64, max: u64 },
}

/// A finite value in `[0, 1]` (either zero counts).
pub open spec fn in_unit_interval(bits: u64) -> bool {
    is_finite(bits) && (is_zero(bits) || (!sign_bit(bits) && bits <= ONE_BITS))
}

/// For two values in `[0, 1]`, whether the first exceeds the second.
pub open spec fn unit_gt(a: u64, b: u64) -> bool {
    canonical_zero(a) > canonical_zero(b)
}

/// The channel at an index.
pub open spec fn channel_at(i: int) -> RgbChannelV1 {
    if i == 0 {
        RgbChannelV1::Red
    } else if i == 1 {
        RgbChannelV1::Green
    } else {
        RgbChannelV1::Blue
    }
}

/// First failure of one bound, channel by channel in `R, G, B` order.
pub open spec fn bound_error(bound: BackdropBoundV1, v: Seq<u64>, i: int) -> Option<BackdropBoxErrorV1>
    decreases 3 - i,
{
    if i >= 3 || i < 0 {
        None
    } else if !is_finite(v[i]) {
        Some(BackdropBoxErrorV1::NonFiniteChannel { bound, channel: channel_at(i) })
    } else if !in_unit_interval(v[i]) {
        Some(BackdropBoxErrorV1::OutOfRangeChannel { bound, channel: channel_at(i), value: v[i] })
    } else {
        bound_error(bound, v, i + 1)
    }
}

/// First reversed channel, in `R, G, B` order.
pub open spec fn reversal_error(min: Seq<u64>, max: Seq<u64>, i: int) -> Option<BackdropBoxErrorV1>
    decreases 3 - i,
{
    if i >= 3 || i < 0 {
        None
    } else if unit_gt(min[i], max[i]) {
        Some(BackdropBoxErrorV1::ReversedChannel { channel: channel_at(i), min: min[i], max: max[i] })
    } else {
        reversal_error(min, max, i + 1)
    }
}

/// The failure a pair of bounds meets first: the minimum's channels, then
/// the maximum's, then the order of each channel; `None` for a valid box.
pub open spec fn backdrop_box_error(min: Seq<u64>, max: Seq<u64>) -> Option<BackdropBoxErrorV1> {
    match bound_error(BackdropBoundV1::Min, min, 0) {
        Some(e) => Some(e),
        None => match bound_error(BackdropBoundV1::Max, max, 0) {
            Some(e) => Some(e),
            None => reversal_error(min, max, 0),
        },
    }
}

fn channel_of(i: usize) -> (channel: RgbChannelV1)
    ensures
        channel == channel_at(i as int),
{
    if i == 0 {
        RgbChannelV1::Red
    } else if i == 1 {
        RgbChannelV1::Green
    } else {
        RgbChannelV1::Blue
    }
}

fn check_bound(bound: BackdropBoundV1, v: &[u64; 3]) -> (error: Option<BackdropBoxErrorV1>)
    ensures
        error == bound_error(bound, v@, 0),
{
    let mut i: usize = 0;
    while i < 3
        invariant
            0 <= i <= 3,
            v@.len() == 3,
            bound_error(bound, v@, 0) == bound_error(bound, v@, i as int),
        decreases 3 - i,
    {
        let bits = v[i];
        if !bits_is_finite(bits) {
            return Some(BackdropBoxErrorV1::NonFiniteChannel { bound, channel: channel_of(i) });
        }
        if !(bits_is_zero(bits) || (!bits_sign(bits) && bits <= ONE_BITS)) {
            return Some(
                BackdropBoxErrorV1::OutOfRangeChannel { bound, channel: channel_of(i), value: bits },
            );
        }
        i += 1;
    }
    None
}

fn check_order(min: &[u64; 3], max: &[u64; 3]) -> (error: Option<BackdropBoxErrorV1>)
    ensures
        error == reversal_error(min@, max@, 0),
{
    let mut i: usize = 0;
    while i < 3
        invariant
            0 <= i <= 3,
            min@.len() == 3,
            max@.len() == 3,
            reversal_error(min@, max@, 0) == reversal_error(min@, max@, i as int),
        decreases 3 - i,
    {
        if bits_canonical_zero(min[i]) > bits_canonical_zero(max[i]) {
            return Some(
                BackdropBoxErrorV1::ReversedChannel { channel: channel_of(i), min: min[i], max: max[i] },
            );
        }
        i += 1;
    }
    None
}

/// The reachable set of backdrops: per channel a closed interval
/// `[min, max]` inside `[0, 1]`, held by bit patterns.
#[derive(Debug, Clone, Copy, PartialEq, Eq)]
pub struct BackdropBox {
    min: [u64; 3],
    max: [u64; 3],
}

impl BackdropBox {
    #[verifier::type_invariant]
    spec fn valid(self) -> bool {
        backdrop_box_error(self.min@, self.max@) is None
    }

    /// Lower corner, by bit patterns.
    pub closed spec fn spec_min(self) -> Seq<u64> {
        self.min@
    }

    /// Upper corner, by bit patterns.
    pub closed spec fn spec_max(self) -> Seq<u64> {
        self.max@
    }

    /// The box of every backdrop, `[0, 1]` in each channel.
    pub fn full() -> (full: Self)
        ensures
            full.spec_min() == seq![0u64, 0u64, 0u64],
            full.spec_max() == seq![ONE_BITS, ONE_BITS, ONE_BITS],
    {
        let min: [u64; 3] = [0; 3];
        let max: [u64; 3] = [ONE_BITS; 3];
        proof {
            assert(min@ =~= seq![0u64, 0u64, 0u64]);
            assert(max@ =~= seq![ONE_BITS, ONE_BITS, ONE_BITS]);
            assert(in_unit_interval(0u64));
            assert(in_unit_interval(ONE_BITS));
            assert(bound_error(BackdropBoundV1::Min, min@, 3) is None);
            assert(bound_error(BackdropBoundV1::Min, min@, 2) is None);
            assert(bound_error(BackdropBoundV1::Min, min@, 1) is None);
            assert(bound_error(BackdropBoundV1::Min, min@, 0) is None);
            assert(bound_error(BackdropBoundV1::Max, max@, 3) is None);
            assert(bound_error(BackdropBoundV1::Max, max@, 2) is None);
            assert(bound_error(BackdropBoundV1::Max, max@, 1) is None);
            assert(bound_error(BackdropBoundV1::Max, max@, 0) is None);
            assert(reversal_error(min@, max@, 3) is None);
            assert(reversal_error(min@, max@, 2) is None);
            assert(reversal_error(min@, max@, 1) is None);
            assert(reversal_error(min@, max@, 0) is None);
        }
        let full = BackdropBox { min, max };
        full
    }

    /// Admits a box from its corners' bit patterns, or names the first
    /// failure: a channel of `min`, then of `max`, that is not finite or not
    /// in `[0, 1]`, then a channel whose minimum exceeds its maximum. A
    /// degenerate box (`min == max`) is valid.
    pub fn try_new(min: [u64; 3], max: [u64; 3]) -> (made: Result<Self, BackdropBoxErrorV1>)
        ensures
            match backdrop_box_error(min@, max@) {
                Some(e) => made == Err::<Self, BackdropBoxErrorV1>(e),
                None => made matches Ok(b) && b.spec_min() == min@ && b.spec_max() == max@,
            },
    {
        if let Some(e) = check_bound(BackdropBoundV1::Min, &min) {
            return Err(e);
        }
        if let Some(e) = check_bound(BackdropBoundV1::Max, &max) {
            return Err(e);
        }
        if let Some(e) = check_order(&min, &max) {
            return Err(e);
        }
        Ok(BackdropBox { min, max })
    }

    /// Lower corner, by bit patterns. Every channel of both corners lies in
    /// `[0, 1]`, and no minimum exceeds its maximum.
    pub fn min(&self) -> (min: [u64; 3])
        ensures
            min@ == self.spec_min(),
            forall|i: int|
                0 <= i < 3 ==> in_unit_interval(#[trigger] self.spec_min()[i]) && in_unit_interval(
                    self.spec_max()[i],
                ) && !unit_gt(self.spec_min()[i], self.spec_max()[i]),
    {
        proof {
            use_type_invariant(self);
            lemma_valid_box_channels(self.min@, self.max@);
            assert forall|i: int| 0 <= i < 3 implies in_unit_interval(
                #[trigger] self.spec_min()[i],
            ) && in_unit_interval(self.spec_max()[i]) && !unit_gt(
                self.spec_min()[i],
                self.spec_max()[i],
            ) by {
                assert(in_unit_interval(self.min@[i]));
            }
        }
        self.min
    }

    /// Upper corner, by bit patterns.
    pub fn max(&self) -> (max: [u64; 3])
        ensures
            max@ == self.spec_max(),
    {
        self.max
    }

}

proof fn lemma_bound_error_none(bound: BackdropBoundV1, v: Seq<u64>, i: int)
    requires
        0 <= i <= 3,
        bound_error(bound, v, i) is None,
    ensures
        forall|j: int| i <= j < 3 ==> in_unit_interval(#[trigger] v[j]),
    decreases 3 - i,
{
    if i < 3 {
        lemma_bound_error_none(bound, v, i + 1);
    }
}

proof fn lemma_reversal_error_none(min: Seq<u64>, max: Seq<u64>, i: int)
    requires
        0 <= i <= 3,
        reversal_error(min, max, i) is None,
    ensures
        forall|j: int| i <= j < 3 ==> !unit_gt(#[trigger] min[j], max[j]),
    decreases 3 - i,
{
    if i < 3 {
        lemma_reversal_error_none(min, max, i + 1);
    }
}

/// A pair of corners without a failure is a box: every channel is in
/// `[0, 1]` and ordered.
pub proof fn lemma_valid_box_channels(min: Seq<u64>, max: Seq<u64>)
    requires
        backdrop_box_error(min, max) is None,
    ensures
        forall|i: int|
            0 <= i < 3 ==> in_unit_interval(#[trigger] min[i]) && in_unit_interval(max[i])
                && !unit_gt(min[i], max[i]),
{
    lemma_bound_error_none(BackdropBoundV1::Min, min, 0);
    lemma_bound_error_none(BackdropBoundV1::Max, max, 0);
    lemma_reversal_error_none(min, max, 0);
}

} // verus!
