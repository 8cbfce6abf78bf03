use labcolors_core::material::{
    BackdropBoundV1, BackdropBox, BackdropBoxErrorV1, MaterialAlphaStatusV1,
    MaterialNumericalProfileV1, RgbChannelV1,
};

fn bits(v: [f64; 3]) -> [u64; 3] {
    v.map(f64::to_bits)
}

#[test]
fn backdrop_box_constructor_reports_distinct_invariant_failures() {
    assert!(matches!(
        BackdropBox::try_new(bits([1.0, 0.0, 0.0]), bits([0.0, 1.0, 1.0])),
        Err(BackdropBoxErrorV1::ReversedChannel {
            channel: RgbChannelV1::Red,
            min,
            max,
        }) if min == 1.0f64.to_bits() && max == 0.0f64.to_bits()
    ));
    assert!(matches!(
        BackdropBox::try_new(bits([0.0; 3]), bits([f64::NAN, 1.0, 1.0])),
        Err(BackdropBoxErrorV1::NonFiniteChannel {
            bound: BackdropBoundV1::Max,
            channel: RgbChannelV1::Red,
        })
    ));
    assert!(matches!(
        BackdropBox::try_new(bits([-0.01, 0.0, 0.0]), bits([1.0; 3])),
        Err(BackdropBoxErrorV1::OutOfRangeChannel {
            bound: BackdropBoundV1::Min,
            channel: RgbChannelV1::Red,
            value,
        }) if value == (-0.01f64).to_bits()
    ));

    let point = BackdropBox::try_new(bits([0.25, 0.5, 0.75]), bits([0.25, 0.5, 0.75]))
        .expect("degenerate ordered box is a valid reachable set");
    assert_eq!(point.min(), bits([0.25, 0.5, 0.75]));
    assert_eq!(point.max(), bits([0.25, 0.5, 0.75]));
}

#[test]
fn backdrop_box_accepts_signed_zero_and_the_full_box() {
    let full = BackdropBox::full();
    assert_eq!(full.min(), bits([0.0; 3]));
    assert_eq!(full.max(), bits([1.0; 3]));
    assert!(BackdropBox::try_new(bits([-0.0, 0.0, 0.0]), bits([0.0, 0.0, 0.0])).is_ok());
    assert!(matches!(
        BackdropBox::try_new(bits([0.0; 3]), bits([1.0, 1.5, 1.0])),
        Err(BackdropBoxErrorV1::OutOfRangeChannel {
            bound: BackdropBoundV1::Max,
            channel: RgbChannelV1::Green,
            ..
        })
    ));
    assert!(matches!(
        BackdropBox::try_new(bits([0.0, 0.0, f64::INFINITY]), bits([1.0; 3])),
        Err(BackdropBoxErrorV1::NonFiniteChannel {
            bound: BackdropBoundV1::Min,
            channel: RgbChannelV1::Blue,
        })
    ));
}

#[test]
fn material_keys_are_stable() {
    assert_eq!(
        MaterialNumericalProfileV1::EncodedSrgbByteScaleAffinePlatformBinary64PowfV1.key(),
        "encoded-srgb-byte-scale-affine-platform-binary64-powf-v1"
    );
    assert_eq!(MaterialAlphaStatusV1::Satisfied.key(), "satisfied");
    assert_eq!(MaterialAlphaStatusV1::Degraded.key(), "degraded");
}
