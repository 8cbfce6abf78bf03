//! Technical-quality evidence for whole-field evaluations.
//!
//! Each artifact is content-addressed: its digest is the SHA-256 of a type tag
//! followed by the bytes of every field it binds, so two artifacts agree on
//! their digest whenever they agree on their fields. The evidence covers
//! technical quality and the declared restoration policy only; it grants no
//! clean-pass or human-clean authority.
use vstd::prelude::*;
use vstd::string::*;
use crate::field_effect::{
    FieldCertificateDigestV1, FieldOperatorKindV1, FieldRasterDigestV1, FieldRequestDigestV1,
};
use crate::sha256::{be_u64_bytes, sha256_spec, Hasher};

verus! {

/// Digest of a [`FieldTechnicalQualityV1`].
#[derive(Debug, Clone, Copy, PartialEq, Eq, PartialOrd, Ord, Hash)]
pub struct FieldTechnicalQualityDigestV1 {
    bytes: [u8; 32],
}

/// Digest of a [`FieldCompositionLawProofV1`].
#[derive(Debug, Clone, Copy, PartialEq, Eq, PartialOrd, Ord, Hash)]
pub struct FieldCompositionLawProofDigestV1 {
    bytes: [u8; 32],
}

/// Digest of a [`FieldGamutContainmentProofV1`].
#[derive(Debug, Clone, Copy, PartialEq, Eq, PartialOrd, Ord, Hash)]
pub struct FieldGamutContainmentProofDigestV1 {
    bytes: [u8; 32],
}

/// Digest of a [`FieldDeclaredRestorationPolicyV1`].
#[derive(Debug, Clone, Copy, PartialEq, Eq, PartialOrd, Ord, Hash)]
pub struct FieldDeclaredRestorationPolicyDigestV1 {
    bytes: [u8; 32],
}

impl View for FieldTechnicalQualityDigestV1 {
    type V = Seq<u8>;

    closed spec fn view(&self) -> Seq<u8> {
        self.bytes@
    }
}

impl View for FieldCompositionLawProofDigestV1 {
    type V = Seq<u8>;

    closed spec fn view(&self) -> Seq<u8> {
        self.bytes@
    }
}

impl View for FieldGamutContainmentProofDigestV1 {
    type V = Seq<u8>;

    closed spec fn view(&self) -> Seq<u8> {
        self.bytes@
    }
}

impl View for FieldDeclaredRestorationPolicyDigestV1 {
    type V = Seq<u8>;

    closed spec fn view(&self) -> Seq<u8> {
        self.bytes@
    }
}

impl FieldTechnicalQualityDigestV1 {
    /// Wraps the 32 digest bytes.
    pub fn from_bytes(bytes: [u8; 32]) -> (digest: Self)
        ensures
            digest@ == bytes@,
    {
        Self { bytes }
    }

    /// The 32 digest bytes.
    pub fn as_bytes(self) -> (bytes: [u8; 32])
        ensures
            bytes@ == self@,
    {
        self.bytes
    }
}

impl FieldCompositionLawProofDigestV1 {
    /// Wraps the 32 digest bytes.
    pub fn from_bytes(bytes: [u8; 32]) -> (digest: Self)
        ensures
            digest@ == bytes@,
    {
        Self { bytes }
    }

    /// The 32 digest bytes.
    pub fn as_bytes(self) -> (bytes: [u8; 32])
        ensures
            bytes@ == self@,
    {
        self.bytes
    }
}

impl FieldGamutContainmentProofDigestV1 {
    /// Wraps the 32 digest bytes.
    pub fn from_bytes(bytes: [u8; 32]) -> (digest: Self)
        ensures
            digest@ == bytes@,
    {
        Self { bytes }
    }

    /// The 32 digest bytes.
    pub fn as_bytes(self) -> (bytes: [u8; 32])
        ensures
            bytes@ == self@,
    {
        self.bytes
    }
}

impl FieldDeclaredRestorationPolicyDigestV1 {
    /// Wraps the 32 digest bytes.
    pub fn from_bytes(bytes: [u8; 32]) -> (digest: Self)
        ensures
            digest@ == bytes@,
    {
        Self { bytes }
    }

    /// The 32 digest bytes.
    pub fn as_bytes(self) -> (bytes: [u8; 32])
        ensures
            bytes@ == self@,
    {
        self.bytes
    }
}

/// Operator-specific composition law conformance class.
#[derive(Debug, Clone, Copy, PartialEq, Eq, Hash, Structural)]
pub enum FieldCompositionLawClassV1 {
    /// Exact Q32 binomial normalisation (weights sum to `2^32`) and
    /// separability into a horizontal then a vertical pass.
    GaussianBlurSeparableQ32,
    /// Porter-Duff source-over algebra over premultiplied sRGB8 pixels.
    PremultipliedSourceOver,
    /// Encoded-sRGB8 screen reference law against an opaque backdrop.
    EncodedSrgb8ScreenOpaqueBackdrop,
    /// Porter-Duff lighter (additive) compositing.
    PorterDuffLighter,
}

/// The law class that governs each operator kind.
pub open spec fn law_class_of(kind: FieldOperatorKindV1) -> FieldCompositionLawClassV1 {
    match kind {
        FieldOperatorKindV1::GaussianBlurSeparableQ32V1 => FieldCompositionLawClassV1::GaussianBlurSeparableQ32,
        FieldOperatorKindV1::PremultipliedSourceOverV1 => FieldCompositionLawClassV1::PremultipliedSourceOver,
        FieldOperatorKindV1::EncodedSrgb8ScreenOpaqueBackdropV1 => FieldCompositionLawClassV1::EncodedSrgb8ScreenOpaqueBackdrop,
        FieldOperatorKindV1::PorterDuffLighterV1 => FieldCompositionLawClassV1::PorterDuffLighter,
    }
}

/// One-byte code of an operator kind inside a digest preimage.
pub open spec fn operator_kind_code(kind: FieldOperatorKindV1) -> u8 {
    match kind {
        FieldOperatorKindV1::GaussianBlurSeparableQ32V1 => 1,
        FieldOperatorKindV1::PremultipliedSourceOverV1 => 2,
        FieldOperatorKindV1::EncodedSrgb8ScreenOpaqueBackdropV1 => 3,
        FieldOperatorKindV1::PorterDuffLighterV1 => 4,
    }
}

/// One-byte code of a law class inside a digest preimage.
pub open spec fn law_class_code(class: FieldCompositionLawClassV1) -> u8 {
    match class {
        FieldCompositionLawClassV1::GaussianBlurSeparableQ32 => 1,
        FieldCompositionLawClassV1::PremultipliedSourceOver => 2,
        FieldCompositionLawClassV1::EncodedSrgb8ScreenOpaqueBackdrop => 3,
        FieldCompositionLawClassV1::PorterDuffLighter => 4,
    }
}

impl FieldCompositionLawClassV1 {
    /// The composition law class of an operator kind.
    pub fn from_operator_kind(kind: FieldOperatorKindV1) -> (class: Self)
        ensures
            class == law_class_of(kind),
    {
        match kind {
            FieldOperatorKindV1::GaussianBlurSeparableQ32V1 => Self::GaussianBlurSeparableQ32,
            FieldOperatorKindV1::PremultipliedSourceOverV1 => Self::PremultipliedSourceOver,
            FieldOperatorKindV1::EncodedSrgb8ScreenOpaqueBackdropV1 => {
                Self::EncodedSrgb8ScreenOpaqueBackdrop
            },
            FieldOperatorKindV1::PorterDuffLighterV1 => Self::PorterDuffLighter,
        }
    }
}

/// Bytes hashed for a gamut containment proof.
pub open spec fn gamut_preimage(output: Seq<u8>, pixel_count: u64) -> Seq<u8> {
    "FieldGamutContainmentProofV1".spec_bytes() + output + be_u64_bytes(pixel_count)
}

/// Bytes hashed for a composition law proof.
pub open spec fn composition_law_preimage(
    kind: FieldOperatorKindV1,
    request: Seq<u8>,
    output: Seq<u8>,
) -> Seq<u8> {
    "FieldCompositionLawProofV1".spec_bytes() + seq![operator_kind_code(kind)] + seq![
        law_class_code(law_class_of(kind)),
    ] + request + output
}

/// Bytes hashed for a declared restoration policy.
pub open spec fn restoration_policy_preimage(
    certificate: Seq<u8>,
    kind: FieldOperatorKindV1,
) -> Seq<u8> {
    "FieldDeclaredRestorationPolicyV1".spec_bytes() + certificate + seq![operator_kind_code(kind)]
}

/// Bytes hashed for a technical quality verdict.
pub open spec fn technical_quality_preimage(
    request: Seq<u8>,
    output: Seq<u8>,
    composition_law: Seq<u8>,
    gamut: Seq<u8>,
) -> Seq<u8> {
    "FieldTechnicalQualityV1".spec_bytes() + request + output + composition_law + gamut
}

/// Big-endian bytes of a 64-bit word.
fn u64_be_bytes(x: u64) -> (bytes: [u8; 8])
    ensures
        bytes@ == be_u64_bytes(x),
{
    let mut bytes = [0u8; 8];
    let mut i: usize = 0;
    while i < 8
        invariant
            0 <= i <= 8,
            bytes@.len() == 8,
            forall|j: int| 0 <= j < i ==> bytes@[j] == be_u64_bytes(x)[j],
        decreases 8 - i,
    {
        bytes[i] = (#[verifier::truncate] (((x >> (8 * (7 - i)) as u64) & 0xff) as u8));
        i += 1;
    }
    assert(bytes@ =~= be_u64_bytes(x));
    bytes
}

fn hash_operator_kind(hasher: &mut Hasher, kind: FieldOperatorKindV1)
    ensures
        final(hasher).absorbed() == old(hasher).absorbed() + seq![operator_kind_code(kind)],
{
    let code: u8 = match kind {
        FieldOperatorKindV1::GaussianBlurSeparableQ32V1 => 1,
        FieldOperatorKindV1::PremultipliedSourceOverV1 => 2,
        FieldOperatorKindV1::EncodedSrgb8ScreenOpaqueBackdropV1 => 3,
        FieldOperatorKindV1::PorterDuffLighterV1 => 4,
    };
    let bytes = [code];
    hasher.update(bytes.as_slice());
    assert(bytes@ =~= seq![operator_kind_code(kind)]);
}

fn hash_composition_law_class(hasher: &mut Hasher, class: FieldCompositionLawClassV1)
    ensures
        final(hasher).absorbed() == old(hasher).absorbed() + seq![law_class_code(class)],
{
    let code: u8 = match class {
        FieldCompositionLawClassV1::GaussianBlurSeparableQ32 => 1,
        FieldCompositionLawClassV1::PremultipliedSourceOver => 2,
        FieldCompositionLawClassV1::EncodedSrgb8ScreenOpaqueBackdrop => 3,
        FieldCompositionLawClassV1::PorterDuffLighter => 4,
    };
    let bytes = [code];
    hasher.update(bytes.as_slice());
    assert(bytes@ =~= seq![law_class_code(class)]);
}

/// Evidence that an output raster satisfies gamut containment: every pixel
/// is a valid premultiplied sRGB8 value (`channel <= alpha`).
///
/// The caller has already checked every pixel; this artifact records that
/// check as a content-addressed value.
#[derive(Debug, Clone, Copy, PartialEq, Eq)]
pub struct FieldGamutContainmentProofV1 {
    output_digest: FieldRasterDigestV1,
    pixel_count: u64,
    digest: FieldGamutContainmentProofDigestV1,
}

impl FieldGamutContainmentProofV1 {
    /// Digest of the output raster.
    pub closed spec fn spec_output_digest(self) -> FieldRasterDigestV1 {
        self.output_digest
    }

    /// Number of checked pixels.
    pub closed spec fn spec_pixel_count(self) -> u64 {
        self.pixel_count
    }

    /// Content address of the proof.
    pub closed spec fn spec_digest(self) -> FieldGamutContainmentProofDigestV1 {
        self.digest
    }

    /// The digest is the SHA-256 of the tag and the bound fields.
    pub open spec fn wf(self) -> bool {
        self.spec_digest()@ == sha256_spec(
            gamut_preimage(self.spec_output_digest()@, self.spec_pixel_count()),
        )
    }

    /// Records gamut containment of `pixel_count` pixels of the raster with
    /// digest `output_digest`.
    pub fn new(output_digest: FieldRasterDigestV1, pixel_count: u64) -> (proof_value: Self)
        ensures
            proof_value.spec_output_digest() == output_digest,
            proof_value.spec_pixel_count() == pixel_count,
            proof_value.wf(),
    {
        let mut hasher = Hasher::new();
        hasher.update("FieldGamutContainmentProofV1".as_bytes());
        let output_bytes = output_digest.as_bytes();
        hasher.update(output_bytes.as_slice());
        let count_bytes = u64_be_bytes(pixel_count);
        hasher.update(count_bytes.as_slice());
        let digest_bytes = hasher.finalize();
        proof {
            assert(hasher.absorbed() =~= gamut_preimage(output_digest@, pixel_count));
        }
        Self {
            output_digest,
            pixel_count,
            digest: FieldGamutContainmentProofDigestV1 { bytes: digest_bytes },
        }
    }

    /// Digest of the output raster.
    pub fn output_digest(self) -> (digest: FieldRasterDigestV1)
        ensures
            digest == self.spec_output_digest(),
    {
        self.output_digest
    }

    /// Number of checked pixels.
    pub fn pixel_count(self) -> (count: u64)
        ensures
            count == self.spec_pixel_count(),
    {
        self.pixel_count
    }

    /// Content address of the proof.
    pub fn digest(self) -> (digest: FieldGamutContainmentProofDigestV1)
        ensures
            digest == self.spec_digest(),
    {
        self.digest
    }
}

/// Per-operator composition law conformance evidence at field scale.
#[derive(Debug, Clone, Copy, PartialEq, Eq)]
pub struct FieldCompositionLawProofV1 {
    operator_kind: FieldOperatorKindV1,
    law_class: FieldCompositionLawClassV1,
    request_digest: FieldRequestDigestV1,
    output_digest: FieldRasterDigestV1,
    digest: FieldCompositionLawProofDigestV1,
}

impl FieldCompositionLawProofV1 {
    /// Operator whose law is certified.
    pub closed spec fn spec_operator_kind(self) -> FieldOperatorKindV1 {
        self.operator_kind
    }

    /// Law class the operator conforms to.
    pub closed spec fn spec_law_class(self) -> FieldCompositionLawClassV1 {
        self.law_class
    }

    /// Digest of the request.
    pub closed spec fn spec_request_digest(self) -> FieldRequestDigestV1 {
        self.request_digest
    }

    /// Digest of the output raster.
    pub closed spec fn spec_output_digest(self) -> FieldRasterDigestV1 {
        self.output_digest
    }

    /// Content address of the proof.
    pub closed spec fn spec_digest(self) -> FieldCompositionLawProofDigestV1 {
        self.digest
    }

    /// The law class is the operator's, and the digest is the SHA-256 of the
    /// tag and the bound fields.
    pub open spec fn wf(self) -> bool {
        &&& self.spec_law_class() == law_class_of(self.spec_operator_kind())
        &&& self.spec_digest()@ == sha256_spec(
            composition_law_preimage(
                self.spec_operator_kind(),
                self.spec_request_digest()@,
                self.spec_output_digest()@,
            ),
        )
    }

    /// Binds operator, law class, request and output into one
    /// content-addressed artifact.
    pub fn new(
        operator_kind: FieldOperatorKindV1,
        request_digest: FieldRequestDigestV1,
        output_digest: FieldRasterDigestV1,
    ) -> (proof_value: Self)
        ensures
            proof_value.spec_operator_kind() == operator_kind,
            proof_value.spec_request_digest() == request_digest,
            proof_value.spec_output_digest() == output_digest,
            proof_value.wf(),
    {
        let law_class = FieldCompositionLawClassV1::from_operator_kind(operator_kind);
        let mut hasher = Hasher::new();
        hasher.update("FieldCompositionLawProofV1".as_bytes());
        hash_operator_kind(&mut hasher, operator_kind);
        hash_composition_law_class(&mut hasher, law_class);
        let request_bytes = request_digest.as_bytes();
        hasher.update(request_bytes.as_slice());
        let output_bytes = output_digest.as_bytes();
        hasher.update(output_bytes.as_slice());
        let digest_bytes = hasher.finalize();
        proof {
            assert(hasher.absorbed() =~= composition_law_preimage(
                operator_kind,
                request_digest@,
                output_digest@,
            ));
        }
        Self {
            operator_kind,
            law_class,
            request_digest,
            output_digest,
            digest: FieldCompositionLawProofDigestV1 { bytes: digest_bytes },
        }
    }

    /// Operator whose law is certified.
    pub fn operator_kind(self) -> (kind: FieldOperatorKindV1)
        ensures
            kind == self.spec_operator_kind(),
    {
        self.operator_kind
    }

    /// Law class the operator conforms to.
    pub fn law_class(self) -> (class: FieldCompositionLawClassV1)
        ensures
            class == self.spec_law_class(),
    {
        self.law_class
    }

    /// Digest of the request.
    pub fn request_digest(self) -> (digest: FieldRequestDigestV1)
        ensures
            digest == self.spec_request_digest(),
    {
        self.request_digest
    }

    /// Digest of the output raster.
    pub fn output_digest(self) -> (digest: FieldRasterDigestV1)
        ensures
            digest == self.spec_output_digest(),
    {
        self.output_digest
    }

    /// Content address of the proof.
    pub fn digest(self) -> (digest: FieldCompositionLawProofDigestV1)
        ensures
            digest == self.spec_digest(),
    {
        self.digest
    }
}

/// Declared-restoration policy bound to one certificate and operator.
///
/// It keeps restorative action authority apart from technical quality and
/// grants no human-clean authority.
#[derive(Debug, Clone, Copy, PartialEq, Eq)]
pub struct FieldDeclaredRestorationPolicyV1 {
    certificate_digest: FieldCertificateDigestV1,
    operator_kind: FieldOperatorKindV1,
    digest: FieldDeclaredRestorationPolicyDigestV1,
}

impl FieldDeclaredRestorationPolicyV1 {
    /// Certificate the policy is bound to.
    pub closed spec fn spec_certificate_digest(self) -> FieldCertificateDigestV1 {
        self.certificate_digest
    }

    /// Operator the policy is bound to.
    pub closed spec fn spec_operator_kind(self) -> FieldOperatorKindV1 {
        self.operator_kind
    }

    /// Content address of the policy.
    pub closed spec fn spec_digest(self) -> FieldDeclaredRestorationPolicyDigestV1 {
        self.digest
    }

    /// The digest is the SHA-256 of the tag and the bound fields.
    pub open spec fn wf(self) -> bool {
        self.spec_digest()@ == sha256_spec(
            restoration_policy_preimage(self.spec_certificate_digest()@, self.spec_operator_kind()),
        )
    }

    /// Binds a declared-restoration policy to a certificate and an operator.
    pub fn new(
        certificate_digest: FieldCertificateDigestV1,
        operator_kind: FieldOperatorKindV1,
    ) -> (policy: Self)
        ensures
            policy.spec_certificate_digest() == certificate_digest,
            policy.spec_operator_kind() == operator_kind,
            policy.wf(),
    {
        let mut hasher = Hasher::new();
        hasher.update("FieldDeclaredRestorationPolicyV1".as_bytes());
        let certificate_bytes = certificate_digest.as_bytes();
        hasher.update(certificate_bytes.as_slice());
        hash_operator_kind(&mut hasher, operator_kind);
        let digest_bytes = hasher.finalize();
        proof {
            assert(hasher.absorbed() =~= restoration_policy_preimage(
                certificate_digest@,
                operator_kind,
            ));
        }
        Self {
            certificate_digest,
            operator_kind,
            digest: FieldDeclaredRestorationPolicyDigestV1 { bytes: digest_bytes },
        }
    }

    /// Certificate the policy is bound to.
    pub fn certificate_digest(self) -> (digest: FieldCertificateDigestV1)
        ensures
            digest == self.spec_certificate_digest(),
    {
        self.certificate_digest
    }

    /// Operator the policy is bound to.
    pub fn operator_kind(self) -> (kind: FieldOperatorKindV1)
        ensures
            kind == self.spec_operator_kind(),
    {
        self.operator_kind
    }

    /// Content address of the policy.
    pub fn digest(self) -> (digest: FieldDeclaredRestorationPolicyDigestV1)
        ensures
            digest == self.spec_digest(),
    {
        self.digest
    }
}

/// Technical-quality verdict of one whole-field evaluation.
///
/// Combines composition law conformance and gamut containment into one
/// content-addressed verdict. It speaks of the quality of the output, not of
/// the correctness of its execution.
#[derive(Debug, Clone, Copy, PartialEq, Eq)]
pub struct FieldTechnicalQualityV1 {
    request_digest: FieldRequestDigestV1,
    output_digest: FieldRasterDigestV1,
    composition_law_proof: FieldCompositionLawProofV1,
    gamut_containment_proof: FieldGamutContainmentProofV1,
    digest: FieldTechnicalQualityDigestV1,
}

impl FieldTechnicalQualityV1 {
    /// Digest of the request.
    pub closed spec fn spec_request_digest(self) -> FieldRequestDigestV1 {
        self.request_digest
    }

    /// Digest of the output raster.
    pub closed spec fn spec_output_digest(self) -> FieldRasterDigestV1 {
        self.output_digest
    }

    /// Composition law sub-proof.
    pub closed spec fn spec_composition_law_proof(self) -> FieldCompositionLawProofV1 {
        self.composition_law_proof
    }

    /// Gamut containment sub-proof.
    pub closed spec fn spec_gamut_containment_proof(self) -> FieldGamutContainmentProofV1 {
        self.gamut_containment_proof
    }

    /// Content address of the verdict.
    pub closed spec fn spec_digest(self) -> FieldTechnicalQualityDigestV1 {
        self.digest
    }

    /// Both sub-proofs are well formed and speak of this verdict's request
    /// and output, and the digest is the SHA-256 of the tag, the bound
    /// digests and the sub-proof digests.
    pub open spec fn wf(self) -> bool {
        &&& self.spec_composition_law_proof().wf()
        &&& self.spec_gamut_containment_proof().wf()
        &&& self.spec_composition_law_proof().spec_request_digest() == self.spec_request_digest()
        &&& self.spec_composition_law_proof().spec_output_digest() == self.spec_output_digest()
        &&& self.spec_gamut_containment_proof().spec_output_digest() == self.spec_output_digest()
        &&& self.spec_digest()@ == sha256_spec(
            technical_quality_preimage(
                self.spec_request_digest()@,
                self.spec_output_digest()@,
                self.spec_composition_law_proof().spec_digest()@,
                self.spec_gamut_containment_proof().spec_digest()@,
            ),
        )
    }

    /// Builds the verdict and both sub-proofs from one set of inputs, so the
    /// sub-proofs cannot disagree on request or output.
    pub fn new(
        operator_kind: FieldOperatorKindV1,
        request_digest: FieldRequestDigestV1,
        output_digest: FieldRasterDigestV1,
        pixel_count: u64,
    ) -> (quality: Self)
        ensures
            quality.spec_request_digest() == request_digest,
            quality.spec_output_digest() == output_digest,
            quality.spec_composition_law_proof().spec_operator_kind() == operator_kind,
            quality.spec_gamut_containment_proof().spec_pixel_count() == pixel_count,
            quality.wf(),
    {
        let composition_law_proof = FieldCompositionLawProofV1::new(
            operator_kind,
            request_digest,
            output_digest,
        );
        let gamut_containment_proof = FieldGamutContainmentProofV1::new(output_digest, pixel_count);
        let mut hasher = Hasher::new();
        hasher.update("FieldTechnicalQualityV1".as_bytes());
        let request_bytes = request_digest.as_bytes();
        hasher.update(request_bytes.as_slice());
        let output_bytes = output_digest.as_bytes();
        hasher.update(output_bytes.as_slice());
        let law_bytes = composition_law_proof.digest().as_bytes();
        hasher.update(law_bytes.as_slice());
        let gamut_bytes = gamut_containment_proof.digest().as_bytes();
        hasher.update(gamut_bytes.as_slice());
        let digest_bytes = hasher.finalize();
        proof {
            assert(hasher.absorbed() =~= technical_quality_preimage(
                request_digest@,
                output_digest@,
                composition_law_proof.spec_digest()@,
                gamut_containment_proof.spec_digest()@,
            ));
        }
        Self {
            request_digest,
            output_digest,
            composition_law_proof,
            gamut_containment_proof,
            digest: FieldTechnicalQualityDigestV1 { bytes: digest_bytes },
        }
    }

    /// Digest of the request.
    pub fn request_digest(self) -> (digest: FieldRequestDigestV1)
        ensures
            digest == self.spec_request_digest(),
    {
        self.request_digest
    }

    /// Digest of the output raster.
    pub fn output_digest(self) -> (digest: FieldRasterDigestV1)
        ensures
            digest == self.spec_output_digest(),
    {
        self.output_digest
    }

    /// Composition law sub-proof.
    pub fn composition_law_proof(self) -> (proof_value: FieldCompositionLawProofV1)
        ensures
            proof_value == self.spec_composition_law_proof(),
    {
        self.composition_law_proof
    }

    /// Gamut containment sub-proof.
    pub fn gamut_containment_proof(self) -> (proof_value: FieldGamutContainmentProofV1)
        ensures
            proof_value == self.spec_gamut_containment_proof(),
    {
        self.gamut_containment_proof
    }

    /// Content address of the verdict.
    pub fn digest(self) -> (digest: FieldTechnicalQualityDigestV1)
        ensures
            digest == self.spec_digest(),
    {
        self.digest
    }
}

/// A well-formed technical-quality verdict is a function of its operator,
/// request, output and pixel count: two verdicts that agree on these four
/// agree everywhere, sub-proofs and digests included.
pub proof fn lemma_technical_quality_is_determined_by_inputs(
    a: FieldTechnicalQualityV1,
    b: FieldTechnicalQualityV1,
)
    requires
        a.wf(),
        b.wf(),
        a.spec_request_digest() == b.spec_request_digest(),
        a.spec_output_digest() == b.spec_output_digest(),
        a.spec_composition_law_proof().spec_operator_kind()
            == b.spec_composition_law_proof().spec_operator_kind(),
        a.spec_gamut_containment_proof().spec_pixel_count()
            == b.spec_gamut_containment_proof().spec_pixel_count(),
    ensures
        a == b,
{
    let (la, lb) = (a.composition_law_proof, b.composition_law_proof);
    let (ga, gb) = (a.gamut_containment_proof, b.gamut_containment_proof);
    assert(la.digest.bytes@ =~= lb.digest.bytes@);
    assert(la.digest.bytes =~= lb.digest.bytes);
    assert(ga.digest.bytes =~= gb.digest.bytes);
    assert(a.digest.bytes =~= b.digest.bytes);
}

/// A well-formed restoration policy is a function of its certificate and
/// operator.
pub proof fn lemma_restoration_policy_is_determined_by_inputs(
    a: FieldDeclaredRestorationPolicyV1,
    b: FieldDeclaredRestorationPolicyV1,
)
    requires
        a.wf(),
        b.wf(),
        a.spec_certificate_digest() == b.spec_certificate_digest(),
        a.spec_operator_kind() == b.spec_operator_kind(),
    ensures
        a == b,
{
    assert(a.digest.bytes =~= b.digest.bytes);
}


/// Literal one-byte code of an operator kind: 1 blur, 2 source-over,
/// 3 screen, 4 lighter.
pub open spec fn kind_byte(kind: FieldOperatorKindV1) -> u8 {
    if kind is GaussianBlurSeparableQ32V1 {
        1
    } else if kind is PremultipliedSourceOverV1 {
        2
    } else if kind is EncodedSrgb8ScreenOpaqueBackdropV1 {
        3
    } else {
        4
    }
}

/// Every digest of a well-formed verdict is the SHA-256 of its type tag
/// followed by the fields it binds, in this order: the verdict's of the
/// request, the output, the composition-law digest and the gamut digest;
/// the gamut proof's of the output and the big-endian pixel count; the
/// composition-law proof's of the operator code, the law-class code (equal
/// to the operator code, one class per operator), the request and the
/// output. So the verdict digest changes with the pixel count exactly
/// through the gamut digest it hashes.
pub proof fn lemma_quality_digests_hash_every_bound_field(quality: FieldTechnicalQualityV1)
    requires
        quality.wf(),
    ensures
        quality.spec_digest()@ == sha256_spec(
            "FieldTechnicalQualityV1".spec_bytes() + quality.spec_request_digest()@
                + quality.spec_output_digest()@
                + quality.spec_composition_law_proof().spec_digest()@
                + quality.spec_gamut_containment_proof().spec_digest()@,
        ),
        quality.spec_gamut_containment_proof().spec_digest()@ == sha256_spec(
            "FieldGamutContainmentProofV1".spec_bytes() + quality.spec_output_digest()@
                + be_u64_bytes(quality.spec_gamut_containment_proof().spec_pixel_count()),
        ),
        quality.spec_composition_law_proof().spec_digest()@ == sha256_spec(
            "FieldCompositionLawProofV1".spec_bytes() + seq![
                kind_byte(quality.spec_composition_law_proof().spec_operator_kind()),
                kind_byte(quality.spec_composition_law_proof().spec_operator_kind()),
            ] + quality.spec_request_digest()@ + quality.spec_output_digest()@,
        ),
{
    let kind = quality.spec_composition_law_proof().spec_operator_kind();
    assert(seq![operator_kind_code(kind)] + seq![law_class_code(law_class_of(kind))] =~= seq![
        kind_byte(kind),
        kind_byte(kind),
    ]);
    assert("FieldCompositionLawProofV1".spec_bytes() + seq![operator_kind_code(kind)] + seq![
        law_class_code(law_class_of(kind)),
    ] + quality.spec_request_digest()@ + quality.spec_output_digest()@ =~= "FieldCompositionLawProofV1".spec_bytes()
        + seq![kind_byte(kind), kind_byte(kind)] + quality.spec_request_digest()@
        + quality.spec_output_digest()@);
}

/// The digest of a well-formed restoration policy is the SHA-256 of its tag,
/// the certificate digest and the operator code.
pub proof fn lemma_policy_digest_hashes_certificate_and_operator(
    policy: FieldDeclaredRestorationPolicyV1,
)
    requires
        policy.wf(),
    ensures
        policy.spec_digest()@ == sha256_spec(
            "FieldDeclaredRestorationPolicyV1".spec_bytes() + policy.spec_certificate_digest()@
                + seq![kind_byte(policy.spec_operator_kind())],
        ),
{
}

} // verus!
