//! Field presentation: the certificate taxonomy that closes a compiled field
//! operator DAG into renderer-bound ownership evidence.
//!
//! Footprints are classified as exact or conservative, and only an exact
//! footprint can mint the final-owned bundle domain.
use vstd::prelude::*;
use crate::field_effect::{
    FieldCertificateDigestV1, FieldFootprintV1, FieldOperatorInstanceIdV1, FieldRasterDigestV1,
    FieldWholeRasterCertificateV1,
};

verus! {

/// Identifier of a presentation root inside a program session.
#[derive(Debug, Clone, Copy, PartialEq, Eq, Hash, Structural)]
pub struct PresentationRootId {
    pub value: u64,
}

impl PresentationRootId {
    /// Wraps the root number.
    pub fn new(value: u64) -> (id: Self)
        ensures
            id.value == value,
    {
        Self { value }
    }

    /// The root number.
    pub fn get(self) -> (value: u64)
        ensures
            value == self.value,
    {
        self.value
    }
}

/// Identifier that closes the full downstream field render and composition
/// DAG at one terminal operator.
#[derive(Debug, Clone, Copy, PartialEq, Eq, Hash)]
pub struct FieldPresentationRootV1 {
    id: PresentationRootId,
    terminal_operator: FieldOperatorInstanceIdV1,
    dependency_cone_digest: FieldCertificateDigestV1,
}

impl FieldPresentationRootV1 {
    /// Presentation root identifier.
    pub closed spec fn spec_id(self) -> PresentationRootId {
        self.id
    }

    /// Terminal operator of the DAG.
    pub closed spec fn spec_terminal_operator(self) -> FieldOperatorInstanceIdV1 {
        self.terminal_operator
    }

    /// Digest of the dependency cone.
    pub closed spec fn spec_dependency_cone_digest(self) -> FieldCertificateDigestV1 {
        self.dependency_cone_digest
    }

    /// Builds the root from its three parts.
    pub fn new(
        id: PresentationRootId,
        terminal_operator: FieldOperatorInstanceIdV1,
        dependency_cone_digest: FieldCertificateDigestV1,
    ) -> (root: Self)
        ensures
            root.spec_id() == id,
            root.spec_terminal_operator() == terminal_operator,
            root.spec_dependency_cone_digest() == dependency_cone_digest,
    {
        Self { id, terminal_operator, dependency_cone_digest }
    }

    /// Presentation root identifier.
    pub fn id(self) -> (id: PresentationRootId)
        ensures
            id == self.spec_id(),
    {
        self.id
    }

    /// Terminal operator of the DAG.
    pub fn terminal_operator(self) -> (operator: FieldOperatorInstanceIdV1)
        ensures
            operator == self.spec_terminal_operator(),
    {
        self.terminal_operator
    }

    /// Digest of the dependency cone.
    pub fn dependency_cone_digest(self) -> (digest: FieldCertificateDigestV1)
        ensures
            digest == self.spec_dependency_cone_digest(),
    {
        self.dependency_cone_digest
    }
}

/// Whether a footprint is exact or only conservative. A conservative write
/// bound never mints exact ownership.
#[derive(Debug, Clone, Copy, PartialEq, Eq, Hash, Structural)]
pub enum FieldFootprintClassV1 {
    /// The exact input footprint equals the conservative one.
    Exact,
    /// The conservative input footprint strictly contains the exact one.
    Conservative,
}

/// The class of a footprint: exact exactly when both regions coincide.
pub open spec fn footprint_class_of(footprint: FieldFootprintV1) -> FieldFootprintClassV1 {
    if footprint.spec_exact_input() == footprint.spec_conservative_input() {
        FieldFootprintClassV1::Exact
    } else {
        FieldFootprintClassV1::Conservative
    }
}

impl FieldFootprintClassV1 {
    /// Classifies a footprint.
    pub fn from_footprint(footprint: FieldFootprintV1) -> (class: Self)
        ensures
            class == footprint_class_of(footprint),
    {
        if footprint.exact_input() == footprint.conservative_input() {
            Self::Exact
        } else {
            Self::Conservative
        }
    }

    /// Whether this class may mint exact ownership.
    pub open spec fn spec_permits_exact_ownership(self) -> bool {
        self == FieldFootprintClassV1::Exact
    }

    /// Whether this class may mint exact ownership: only `Exact` does.
    pub fn permits_exact_ownership(self) -> (permits: bool)
        ensures
            permits == self.spec_permits_exact_ownership(),
    {
        matches!(self, Self::Exact)
    }
}

/// Exact simultaneous-zero ownership reference for a field composition:
/// the whole-raster certificate together with its zeroing proof.
#[derive(Debug, Clone, Copy, PartialEq, Eq)]
pub struct OwnedCompositionReferenceV1 {
    source_certificate: FieldWholeRasterCertificateV1,
    zeroing_proof_digest: FieldCertificateDigestV1,
    footprint_class: FieldFootprintClassV1,
}

impl OwnedCompositionReferenceV1 {
    /// Whole-raster certificate the reference derives from.
    pub closed spec fn spec_source_certificate(self) -> FieldWholeRasterCertificateV1 {
        self.source_certificate
    }

    /// Digest of the zeroing proof.
    pub closed spec fn spec_zeroing_proof_digest(self) -> FieldCertificateDigestV1 {
        self.zeroing_proof_digest
    }

    /// Footprint class of the reference.
    pub closed spec fn spec_footprint_class(self) -> FieldFootprintClassV1 {
        self.footprint_class
    }

    /// Builds the reference from its three parts.
    pub fn new(
        source_certificate: FieldWholeRasterCertificateV1,
        zeroing_proof_digest: FieldCertificateDigestV1,
        footprint_class: FieldFootprintClassV1,
    ) -> (reference: Self)
        ensures
            reference.spec_source_certificate() == source_certificate,
            reference.spec_zeroing_proof_digest() == zeroing_proof_digest,
            reference.spec_footprint_class() == footprint_class,
    {
        Self { source_certificate, zeroing_proof_digest, footprint_class }
    }

    /// Whole-raster certificate the reference derives from.
    pub fn source_certificate(self) -> (certificate: FieldWholeRasterCertificateV1)
        ensures
            certificate == self.spec_source_certificate(),
    {
        self.source_certificate
    }

    /// Digest of the zeroing proof.
    pub fn zeroing_proof_digest(self) -> (digest: FieldCertificateDigestV1)
        ensures
            digest == self.spec_zeroing_proof_digest(),
    {
        self.zeroing_proof_digest
    }

    /// Footprint class of the reference.
    pub fn footprint_class(self) -> (class: FieldFootprintClassV1)
        ensures
            class == self.spec_footprint_class(),
    {
        self.footprint_class
    }
}

/// Counterfactual output with the owned contribution zeroed, paired with
/// the reference it was derived against.
#[derive(Debug, Clone, Copy, PartialEq, Eq)]
pub struct CounterfactualSupportV1 {
    reference: OwnedCompositionReferenceV1,
    counterfactual_raster_digest: FieldRasterDigestV1,
    counterfactual_certificate_digest: FieldCertificateDigestV1,
}

impl CounterfactualSupportV1 {
    /// Reference the counterfactual is paired with.
    pub closed spec fn spec_reference(self) -> OwnedCompositionReferenceV1 {
        self.reference
    }

    /// Digest of the counterfactual raster.
    pub closed spec fn spec_counterfactual_raster_digest(self) -> FieldRasterDigestV1 {
        self.counterfactual_raster_digest
    }

    /// Digest of the counterfactual certificate.
    pub closed spec fn spec_counterfactual_certificate_digest(self) -> FieldCertificateDigestV1 {
        self.counterfactual_certificate_digest
    }

    /// Builds the counterfactual support from its three parts.
    pub fn new(
        reference: OwnedCompositionReferenceV1,
        counterfactual_raster_digest: FieldRasterDigestV1,
        counterfactual_certificate_digest: FieldCertificateDigestV1,
    ) -> (support: Self)
        ensures
            support.spec_reference() == reference,
            support.spec_counterfactual_raster_digest() == counterfactual_raster_digest,
            support.spec_counterfactual_certificate_digest() == counterfactual_certificate_digest,
    {
        Self { reference, counterfactual_raster_digest, counterfactual_certificate_digest }
    }

    /// Reference the counterfactual is paired with.
    pub fn reference(self) -> (reference: OwnedCompositionReferenceV1)
        ensures
            reference == self.spec_reference(),
    {
        self.reference
    }

    /// Digest of the counterfactual raster.
    pub fn counterfactual_raster_digest(self) -> (digest: FieldRasterDigestV1)
        ensures
            digest == self.spec_counterfactual_raster_digest(),
    {
        self.counterfactual_raster_digest
    }

    /// Digest of the counterfactual certificate.
    pub fn counterfactual_certificate_digest(self) -> (digest: FieldCertificateDigestV1)
        ensures
            digest == self.spec_counterfactual_certificate_digest(),
    {
        self.counterfactual_certificate_digest
    }
}

/// Closure-level ownership domain computed after all compositing: every
/// contributing operator certificate aggregated into one bundle-level proof.
///
/// Its footprint class is always `Exact`: a conservative footprint cannot
/// produce a value of this type.
#[derive(Debug, PartialEq, Eq)]
pub struct ExactFinalOwnedBundleDomainV1 {
    root: FieldPresentationRootV1,
    contributing_certificates: Box<[FieldWholeRasterCertificateV1]>,
    bundle_digest: FieldCertificateDigestV1,
    footprint_class: FieldFootprintClassV1,
}

impl ExactFinalOwnedBundleDomainV1 {
    #[verifier::type_invariant]
    spec fn only_exact(self) -> bool {
        self.footprint_class == FieldFootprintClassV1::Exact
    }

    /// Presentation root of the bundle.
    pub closed spec fn spec_root(self) -> FieldPresentationRootV1 {
        self.root
    }

    /// Certificates of every contributing operator.
    pub closed spec fn spec_contributing_certificates(self) -> Seq<FieldWholeRasterCertificateV1> {
        self.contributing_certificates@
    }

    /// Digest of the whole bundle.
    pub closed spec fn spec_bundle_digest(self) -> FieldCertificateDigestV1 {
        self.bundle_digest
    }

    /// Footprint class of the bundle.
    pub closed spec fn spec_footprint_class(self) -> FieldFootprintClassV1 {
        self.footprint_class
    }

    /// Builds the bundle domain; the footprint class must permit exact
    /// ownership.
    pub fn new(
        root: FieldPresentationRootV1,
        contributing_certificates: Box<[FieldWholeRasterCertificateV1]>,
        bundle_digest: FieldCertificateDigestV1,
        footprint_class: FieldFootprintClassV1,
    ) -> (bundle: Self)
        requires
            footprint_class.spec_permits_exact_ownership(),
        ensures
            bundle.spec_root() == root,
            bundle.spec_contributing_certificates() == contributing_certificates@,
            bundle.spec_bundle_digest() == bundle_digest,
            bundle.spec_footprint_class() == footprint_class,
    {
        Self { root, contributing_certificates, bundle_digest, footprint_class }
    }

    /// Builds the bundle domain when the footprint class permits exact
    /// ownership, and `None` otherwise.
    pub fn try_new(
        root: FieldPresentationRootV1,
        contributing_certificates: Box<[FieldWholeRasterCertificateV1]>,
        bundle_digest: FieldCertificateDigestV1,
        footprint_class: FieldFootprintClassV1,
    ) -> (bundle: Option<Self>)
        ensures
            bundle.is_some() == footprint_class.spec_permits_exact_ownership(),
            bundle matches Some(b) ==> {
                &&& b.spec_root() == root
                &&& b.spec_contributing_certificates() == contributing_certificates@
                &&& b.spec_bundle_digest() == bundle_digest
                &&& b.spec_footprint_class() == footprint_class
            },
    {
        if !footprint_class.permits_exact_ownership() {
            return None;
        }
        Some(Self { root, contributing_certificates, bundle_digest, footprint_class })
    }

    /// Presentation root of the bundle.
    pub fn root(&self) -> (root: FieldPresentationRootV1)
        ensures
            root == self.spec_root(),
    {
        self.root
    }

    /// Certificates of every contributing operator.
    pub fn contributing_certificates(&self) -> (certificates: &[FieldWholeRasterCertificateV1])
        ensures
            certificates@ == self.spec_contributing_certificates(),
    {
        &self.contributing_certificates
    }

    /// Digest of the whole bundle.
    pub fn bundle_digest(&self) -> (digest: FieldCertificateDigestV1)
        ensures
            digest == self.spec_bundle_digest(),
    {
        self.bundle_digest
    }

    /// Footprint class of the bundle: always `Exact`.
    pub fn footprint_class(&self) -> (class: FieldFootprintClassV1)
        ensures
            class == self.spec_footprint_class(),
            class == FieldFootprintClassV1::Exact,
    {
        proof {
            use_type_invariant(self);
        }
        self.footprint_class
    }
}

/// Presentation-level certificate taxonomy: each variant wraps whole-raster
/// evidence with a distinct guarantee.
#[derive(Debug, PartialEq, Eq)]
pub enum FieldPresentationCertificateV1 {
    /// What the field looks like; valid for exact and conservative footprints.
    Representation { source: FieldWholeRasterCertificateV1, footprint_class: FieldFootprintClassV1 },
    /// What portion of the output is attributable to this field; valid for
    /// exact and conservative footprints.
    Contribution {
        source: FieldWholeRasterCertificateV1,
        footprint_class: FieldFootprintClassV1,
        attribution_digest: FieldCertificateDigestV1,
    },
    /// Closure-level ownership after all compositing; only an exact bundle
    /// domain can stand here.
    FinalOwned { bundle: ExactFinalOwnedBundleDomainV1, counterfactual: CounterfactualSupportV1 },
}

impl FieldPresentationCertificateV1 {
    /// Digest the certificate stands on: the source certificate's, or for a
    /// final-owned certificate the bundle's.
    pub open spec fn spec_source_digest(&self) -> FieldCertificateDigestV1 {
        match self {
            FieldPresentationCertificateV1::Representation { source, .. } => source.spec_digest(),
            FieldPresentationCertificateV1::Contribution { source, .. } => source.spec_digest(),
            FieldPresentationCertificateV1::FinalOwned { bundle, .. } => bundle.spec_bundle_digest(),
        }
    }

    /// Footprint class the certificate reports: the stored one, or `Exact`
    /// for a final-owned certificate.
    pub open spec fn spec_footprint_class(&self) -> FieldFootprintClassV1 {
        match self {
            FieldPresentationCertificateV1::Representation { footprint_class, .. } => *footprint_class,
            FieldPresentationCertificateV1::Contribution { footprint_class, .. } => *footprint_class,
            FieldPresentationCertificateV1::FinalOwned { .. } => FieldFootprintClassV1::Exact,
        }
    }

    /// Digest the certificate stands on.
    pub fn source_digest(&self) -> (digest: FieldCertificateDigestV1)
        ensures
            digest == self.spec_source_digest(),
    {
        match self {
            Self::Representation { source, .. } => source.digest(),
            Self::Contribution { source, .. } => source.digest(),
            Self::FinalOwned { bundle, .. } => bundle.bundle_digest(),
        }
    }

    /// Footprint class the certificate reports; a final-owned certificate
    /// reports `Exact`, which is also the class of the bundle inside it.
    pub fn footprint_class(&self) -> (class: FieldFootprintClassV1)
        ensures
            class == self.spec_footprint_class(),
            self is FinalOwned ==> class == self->FinalOwned_bundle.spec_footprint_class(),
    {
        match self {
            Self::Representation { footprint_class, .. } => *footprint_class,
            Self::Contribution { footprint_class, .. } => *footprint_class,
            Self::FinalOwned { bundle, .. } => {
                proof {
                    use_type_invariant(bundle);
                }
                FieldFootprintClassV1::Exact
            },
        }
    }

    /// A representation certificate.
    pub fn representation(
        source: FieldWholeRasterCertificateV1,
        footprint_class: FieldFootprintClassV1,
    ) -> (certificate: Self)
        ensures
            certificate == (FieldPresentationCertificateV1::Representation {
                source,
                footprint_class,
            }),
    {
        Self::Representation { source, footprint_class }
    }

    /// A contribution certificate.
    pub fn contribution(
        source: FieldWholeRasterCertificateV1,
        footprint_class: FieldFootprintClassV1,
        attribution_digest: FieldCertificateDigestV1,
    ) -> (certificate: Self)
        ensures
            certificate == (FieldPresentationCertificateV1::Contribution {
                source,
                footprint_class,
                attribution_digest,
            }),
    {
        Self::Contribution { source, footprint_class, attribution_digest }
    }

    /// A final-owned certificate; the bundle is exact by construction.
    pub fn final_owned(
        bundle: ExactFinalOwnedBundleDomainV1,
        counterfactual: CounterfactualSupportV1,
    ) -> (certificate: Self)
        ensures
            certificate == (FieldPresentationCertificateV1::FinalOwned { bundle, counterfactual }),
    {
        Self::FinalOwned { bundle, counterfactual }
    }
}

/// A footprint permits exact ownership exactly when its exact and
/// conservative regions coincide.
pub proof fn lemma_exact_ownership_iff_regions_coincide(footprint: FieldFootprintV1)
    ensures
        footprint_class_of(footprint).spec_permits_exact_ownership() <==> footprint.spec_exact_input()
            == footprint.spec_conservative_input(),
{
}

} // verus!
