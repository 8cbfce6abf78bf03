//! Gate for the frozen LCS V1 substrate.
//!
//! Only types implementing [`AdmittedLcsIdentityV1`] may be consumed by
//! downstream cleanliness and profile nodes. The trait is sealed: no other
//! crate can implement it, and in this crate only
//! [`ModeledLcsOccurrenceV1`] carries the proof of deterministic derivation.
use vstd::prelude::*;
use crate::lcs_occurrence::ModeledLcsOccurrenceV1;

mod sealed;

use sealed::Sealed;

verus! {

/// A value that stands for a frozen, replayable LCS V1 identity: its
/// coordinates come only from admitted V1 transforms with retained
/// provenance.
pub trait AdmittedLcsIdentityV1: Sealed + Copy + Eq {
    /// The modeled occurrence this value stands for.
    spec fn spec_as_modeled_v1(self) -> ModeledLcsOccurrenceV1;

    /// The underlying modeled occurrence.
    fn as_modeled_v1(self) -> (modeled: ModeledLcsOccurrenceV1)
        ensures
            modeled == self.spec_as_modeled_v1(),
    ;
}

impl Sealed for ModeledLcsOccurrenceV1 {
}

impl AdmittedLcsIdentityV1 for ModeledLcsOccurrenceV1 {
    /// A modeled occurrence stands for itself.
    open spec fn spec_as_modeled_v1(self) -> ModeledLcsOccurrenceV1 {
        self
    }

    fn as_modeled_v1(self) -> (modeled: ModeledLcsOccurrenceV1) {
        self
    }
}

/// Witness that the LCS V1 numerical model is frozen. No value of it can be
/// built outside this crate; [`LCS_FREEZE_V1`] is the canonical instance.
#[derive(Debug, Clone, Copy, PartialEq, Eq, Structural)]
#[non_exhaustive]
pub struct LcsFreezeCertificateV1;

/// The canonical freeze certificate.
pub const LCS_FREEZE_V1: LcsFreezeCertificateV1 = LcsFreezeCertificateV1;

/// Every freeze certificate is the canonical one.
pub proof fn lemma_freeze_certificate_is_singleton(certificate: LcsFreezeCertificateV1)
    ensures
        certificate == LCS_FREEZE_V1,
{
}

} // verus!
