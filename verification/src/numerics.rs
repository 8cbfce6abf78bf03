//! Typed numerical execution modes and the provenance of numerical
//! decisions.
use vstd::prelude::*;
use vstd::string::*;

verus! {

/// A registered compatibility release: a former platform-dependent
/// algorithm kept only by explicit choice.
#[derive(Debug, Clone, Copy, PartialEq, Eq, Hash, Structural)]
pub enum NumericalCompatibilityReleaseIdV1 {
    /// Glow target-or-maximum selection over CAM16-UCS J′.
    GlowCam16UcsJPrimeTargetOrMaxV1,
}

/// How a numerical site is executed: only stable, bound-backed decisions, or
/// an explicitly chosen compatibility release.
#[derive(Debug, Clone, Copy, PartialEq, Eq, Hash, Structural)]
pub enum NumericalExecutionModeV1 {
    StableOnly,
    ExplicitCompatibility { release_id: NumericalCompatibilityReleaseIdV1 },
}

/// Provenance class of a platform-dependent compatibility result.
#[derive(Debug, Clone, Copy, PartialEq, Eq, Hash, Structural)]
pub struct LegacyPlatformDependentV1;

impl LegacyPlatformDependentV1 {
    /// Stable wire key.
    pub fn key(self) -> (key: &'static str)
        ensures
            key@ == "legacy-platform-dependent-v1"@,
    {
        "legacy-platform-dependent-v1"
    }
}

/// Class of sealed decision evidence.
#[derive(Debug, Clone, Copy, PartialEq, Eq, Hash, Structural)]
pub enum NumericalEvidenceClassV1 {
    /// The decision follows from exact byte states.
    BitExact,
}

/// Registry-owned evidence of a determinate numerical decision. Only this
/// crate can mint it.
#[derive(Debug, Clone, Copy, PartialEq, Eq, Hash, Structural)]
pub struct NumericalDecisionEvidenceV1 {
    class: NumericalEvidenceClassV1,
}

impl NumericalDecisionEvidenceV1 {
    /// Class of the evidence.
    pub closed spec fn spec_class(self) -> NumericalEvidenceClassV1 {
        self.class
    }

    /// Evidence that a decision follows from exact byte states.
    pub(crate) fn mint_bit_exact() -> (evidence: Self)
        ensures
            evidence.spec_class() == NumericalEvidenceClassV1::BitExact,
    {
        Self { class: NumericalEvidenceClassV1::BitExact }
    }

    /// Class of the evidence.
    pub fn class(self) -> (class: NumericalEvidenceClassV1)
        ensures
            class == self.spec_class(),
    {
        self.class
    }

    /// Stable wire key of the evidence class.
    pub fn class_key(self) -> (key: &'static str)
        ensures
            key@ == "bit-exact"@,
    {
        match self.class {
            NumericalEvidenceClassV1::BitExact => "bit-exact",
        }
    }
}

} // verus!
