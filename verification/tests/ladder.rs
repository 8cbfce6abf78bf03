use labcolors_core::ladder::{LadderPosition, ThemeAnchors, ThemeMode};

#[test]
fn theme_anchors_select_by_vc() {
    let anchors = ThemeAnchors {
        light: "#FF3B30".to_string(),
        dark: "#FF3A3A".to_string(),
        light_ic: "#D70015".to_string(),
        dark_ic: "#FF6161".to_string(),
    };
    assert_eq!(anchors.for_vc(&ThemeMode::srgb()), "#FF3B30");
    assert_eq!(anchors.for_vc(&ThemeMode::dim_surround()), "#FF3A3A");
    assert_eq!(anchors.for_vc(&ThemeMode::srgb_high_contrast()), "#D70015");
    assert_eq!(
        anchors.for_vc(&ThemeMode::dim_surround_high_contrast()),
        "#FF6161"
    );
}

#[test]
fn ladder_keys_follow_the_naming_contract() {
    let expected = [
        "label-primary",
        "label-secondary",
        "label-tertiary",
        "label-quaternary",
        "fill-primary",
        "fill-secondary",
        "fill-tertiary",
        "fill-quaternary",
        "border-base",
        "border-soft",
        "border-strong",
        "focus-ring",
        "glow",
        "skeleton-base",
        "skeleton-highlight",
    ];
    let keys: Vec<&str> = LadderPosition::ALL.iter().map(|p| p.key()).collect();
    assert_eq!(keys, expected);
    for (i, a) in keys.iter().enumerate() {
        for b in &keys[i + 1..] {
            assert_ne!(a, b);
        }
    }
}
