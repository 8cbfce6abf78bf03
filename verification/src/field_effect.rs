//! Identities shared by the whole-field operators: content digests, operator
//! kinds, operator instances, rectangles, footprints and the whole-raster
//! execution certificate.
use vstd::prelude::*;

verus! {

/// Digest of a field request: 32 content-addressing bytes.
#[derive(Debug, Clone, Copy, PartialEq, Eq, PartialOrd, Ord, Hash)]
pub struct FieldRequestDigestV1 {
    bytes: [u8; 32],
}

/// Digest of an output raster: 32 content-addressing bytes.
#[derive(Debug, Clone, Copy, PartialEq, Eq, PartialOrd, Ord, Hash)]
pub struct FieldRasterDigestV1 {
    bytes: [u8; 32],
}

/// Digest of a field certificate: 32 content-addressing bytes.
#[derive(Debug, Clone, Copy, PartialEq, Eq, PartialOrd, Ord, Hash)]
pub struct FieldCertificateDigestV1 {
    bytes: [u8; 32],
}

impl View for FieldRequestDigestV1 {
    type V = Seq<u8>;

    closed spec fn view(&self) -> Seq<u8> {
        self.bytes@
    }
}

impl View for FieldRasterDigestV1 {
    type V = Seq<u8>;

    closed spec fn view(&self) -> Seq<u8> {
        self.bytes@
    }
}

impl View for FieldCertificateDigestV1 {
    type V = Seq<u8>;

    closed spec fn view(&self) -> Seq<u8> {
        self.bytes@
    }
}

impl FieldRequestDigestV1 {
    /// Wraps the 32 digest bytes.
    pub fn from_bytes(bytes: [u8; 32]) -> (digest: Self)
        ensures
            digest@ == bytes@,
    {
        Self { bytes }
    }

    /// The 32 digest bytes.
    pub fn as_bytes(self) -> (bytes: [u8; 32])
        ensures
            bytes@ == self@,
            bytes@.len() == 32,
    {
        self.bytes
    }
}

impl FieldRasterDigestV1 {
    /// Wraps the 32 digest bytes.
    pub fn from_bytes(bytes: [u8; 32]) -> (digest: Self)
        ensures
            digest@ == bytes@,
    {
        Self { bytes }
    }

    /// The 32 digest bytes.
    pub fn as_bytes(self) -> (bytes: [u8; 32])
        ensures
            bytes@ == self@,
            bytes@.len() == 32,
    {
        self.bytes
    }
}

impl FieldCertificateDigestV1 {
    /// A digest whose 32 bytes all equal `fill`.
    pub fn new(fill: u8) -> (digest: Self)
        ensures
            digest@ == Seq::new(32, |i: int| fill),
    {
        let digest = Self { bytes: [fill; 32] };
        assert(digest@ =~= Seq::new(32, |i: int| fill));
        digest
    }

    /// Wraps the 32 digest bytes.
    pub fn from_bytes(bytes: [u8; 32]) -> (digest: Self)
        ensures
            digest@ == bytes@,
    {
        Self { bytes }
    }

    /// The 32 digest bytes.
    pub fn as_bytes(self) -> (bytes: [u8; 32])
        ensures
            bytes@ == self@,
            bytes@.len() == 32,
    {
        self.bytes
    }
}

/// The closed set of whole-field operators.
#[derive(Debug, Clone, Copy, PartialEq, Eq, Hash, Structural)]
pub enum FieldOperatorKindV1 {
    /// Separable Gaussian blur with Q32 binomial weights.
    GaussianBlurSeparableQ32V1,
    /// Porter-Duff source-over on premultiplied sRGB8 pixels.
    PremultipliedSourceOverV1,
    /// Encoded-sRGB8 screen against an opaque backdrop.
    EncodedSrgb8ScreenOpaqueBackdropV1,
    /// Porter-Duff lighter (additive).
    PorterDuffLighterV1,
}

/// Identifier of one operator instance in a compiled field DAG.
#[derive(Debug, Clone, Copy, PartialEq, Eq, Hash, Structural)]
pub struct FieldOperatorInstanceIdV1 {
    pub value: u64,
}

impl FieldOperatorInstanceIdV1 {
    /// Wraps the instance number.
    pub fn new(value: u64) -> (id: Self)
        ensures
            id.value == value,
    {
        Self { value }
    }

    /// The instance number.
    pub fn get(self) -> (value: u64)
        ensures
            value == self.value,
    {
        self.value
    }
}

/// Axis-aligned integer raster rectangle.
#[derive(Debug, Clone, Copy, PartialEq, Eq, Hash, Structural)]
pub struct FieldRectV1 {
    pub x: u32,
    pub y: u32,
    pub width: u32,
    pub height: u32,
}

impl FieldRectV1 {
    /// Builds the rectangle at `(x, y)` of the given size.
    pub fn new(x: u32, y: u32, width: u32, height: u32) -> (rect: Self)
        ensures
            rect == (FieldRectV1 { x, y, width, height }),
    {
        Self { x, y, width, height }
    }
}

/// Input footprint of an operator: the exact region it reads and the
/// conservative region that bounds it.
#[derive(Debug, Clone, Copy, PartialEq, Eq, Hash, Structural)]
pub struct FieldFootprintV1 {
    exact_input: FieldRectV1,
    conservative_input: FieldRectV1,
}

impl FieldFootprintV1 {
    /// Pairs the exact and conservative input regions.
    pub fn new(exact_input: FieldRectV1, conservative_input: FieldRectV1) -> (footprint: Self)
        ensures
            footprint.spec_exact_input() == exact_input,
            footprint.spec_conservative_input() == conservative_input,
    {
        Self { exact_input, conservative_input }
    }

    /// The exact input region.
    pub closed spec fn spec_exact_input(self) -> FieldRectV1 {
        self.exact_input
    }

    /// The conservative input region.
    pub closed spec fn spec_conservative_input(self) -> FieldRectV1 {
        self.conservative_input
    }

    /// The exact input region.
    pub fn exact_input(self) -> (rect: FieldRectV1)
        ensures
            rect == self.spec_exact_input(),
    {
        self.exact_input
    }

    /// The conservative input region.
    pub fn conservative_input(self) -> (rect: FieldRectV1)
        ensures
            rect == self.spec_conservative_input(),
    {
        self.conservative_input
    }
}

/// Atomic execution certificate of one whole-raster evaluation, identified
/// by its digest.
#[derive(Debug, Clone, Copy, PartialEq, Eq, Hash)]
pub struct FieldWholeRasterCertificateV1 {
    digest: FieldCertificateDigestV1,
}

impl FieldWholeRasterCertificateV1 {
    /// The certificate with the given digest.
    pub fn new(digest: FieldCertificateDigestV1) -> (certificate: Self)
        ensures
            certificate.spec_digest() == digest,
    {
        Self { digest }
    }

    /// The certificate's digest.
    pub closed spec fn spec_digest(self) -> FieldCertificateDigestV1 {
        self.digest
    }

    /// The certificate's digest.
    pub fn digest(self) -> (digest: FieldCertificateDigestV1)
        ensures
            digest == self.spec_digest(),
    {
        self.digest
    }
}

} // verus!
