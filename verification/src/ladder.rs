//! The accent, sentiment, brand and neutral ladder as data: a closed menu of
//! positions, each carrying its alpha from the ramp, over a per-theme source
//! tint.
//!
//! A ladder position is `{tint = the source's anchor for the theme, alpha
//! from the menu}`. The theme is one of four modes: light or dark, each with
//! or without increased contrast, and exactly one anchor serves each mode.
use vstd::prelude::*;
use vstd::string::*;

verus! {

/// The viewing mode a ladder resolves in: the theme and whether increased
/// contrast is requested.
#[derive(Debug, Clone, Copy, PartialEq, Eq, Hash, Structural)]
pub struct ThemeMode {
    /// Dark theme (dim surround) rather than light (average surround).
    pub dark_theme: bool,
    /// Increased-contrast mode.
    pub high_contrast: bool,
}

impl ThemeMode {
    /// The light theme of the sRGB preset.
    pub fn srgb() -> (mode: Self)
        ensures
            mode == (ThemeMode { dark_theme: false, high_contrast: false }),
    {
        ThemeMode { dark_theme: false, high_contrast: false }
    }

    /// The dark theme of the dim-surround preset.
    pub fn dim_surround() -> (mode: Self)
        ensures
            mode == (ThemeMode { dark_theme: true, high_contrast: false }),
    {
        ThemeMode { dark_theme: true, high_contrast: false }
    }

    /// The light theme with increased contrast.
    pub fn srgb_high_contrast() -> (mode: Self)
        ensures
            mode == (ThemeMode { dark_theme: false, high_contrast: true }),
    {
        ThemeMode { dark_theme: false, high_contrast: true }
    }

    /// The dark theme with increased contrast.
    pub fn dim_surround_high_contrast() -> (mode: Self)
        ensures
            mode == (ThemeMode { dark_theme: true, high_contrast: true }),
    {
        ThemeMode { dark_theme: true, high_contrast: true }
    }

    /// Whether the mode is a dark theme.
    pub fn is_dark_theme(self) -> (dark: bool)
        ensures
            dark == self.dark_theme,
    {
        self.dark_theme
    }
}

/// Slot of a mode in the `light / dark / light-ic / dark-ic` quadruple: the
/// one mapping from viewing mode to slot that every ladder layout shares.
pub open spec fn mode_slot(mode: ThemeMode) -> int {
    match (mode.dark_theme, mode.high_contrast) {
        (false, false) => 0,
        (true, false) => 1,
        (false, true) => 2,
        (true, true) => 3,
    }
}

fn vc_slot(mode: &ThemeMode) -> (slot: usize)
    ensures
        slot == mode_slot(*mode),
{
    match (mode.is_dark_theme(), mode.high_contrast) {
        (false, false) => 0,
        (true, false) => 1,
        (false, true) => 2,
        (true, true) => 3,
    }
}

/// Per-theme anchors of a ladder source: its colour measured separately for
/// each mode, never derived from the light anchor.
#[derive(Debug, Clone, PartialEq, Eq)]
pub struct ThemeAnchors {
    /// Light theme.
    pub light: String,
    /// Dark theme.
    pub dark: String,
    /// Light theme, increased contrast.
    pub light_ic: String,
    /// Dark theme, increased contrast.
    pub dark_ic: String,
}

/// The anchor of a slot.
pub open spec fn anchor_at(anchors: ThemeAnchors, slot: int) -> Seq<char> {
    if slot == 0 {
        anchors.light@
    } else if slot == 1 {
        anchors.dark@
    } else if slot == 2 {
        anchors.light_ic@
    } else {
        anchors.dark_ic@
    }
}

impl ThemeAnchors {
    /// The anchor for a viewing mode: increased contrast picks an `_ic`
    /// anchor, a dark theme picks a dark anchor. The four modes map onto the
    /// four anchors one to one.
    pub fn for_vc(&self, vc: &ThemeMode) -> (anchor: &str)
        ensures
            anchor@ == anchor_at(*self, mode_slot(*vc)),
    {
        match vc_slot(vc) {
            0 => self.light.as_str(),
            1 => self.dark.as_str(),
            2 => self.light_ic.as_str(),
            _ => self.dark_ic.as_str(),
        }
    }
}

/// Distinct viewing modes select distinct anchor slots, and every slot is
/// selected by some mode.
pub proof fn lemma_modes_map_onto_anchor_slots_one_to_one(a: ThemeMode, b: ThemeMode, slot: int)
    requires
        0 <= slot < 4,
    ensures
        0 <= mode_slot(a) < 4,
        mode_slot(a) == mode_slot(b) ==> a == b,
        exists|m: ThemeMode| mode_slot(m) == slot,
{
    if slot == 0 {
        assert(mode_slot(ThemeMode { dark_theme: false, high_contrast: false }) == slot);
    } else if slot == 1 {
        assert(mode_slot(ThemeMode { dark_theme: true, high_contrast: false }) == slot);
    } else if slot == 2 {
        assert(mode_slot(ThemeMode { dark_theme: false, high_contrast: true }) == slot);
    } else {
        assert(mode_slot(ThemeMode { dark_theme: true, high_contrast: true }) == slot);
    }
}

/// The closed menu of ladder positions, each with its ramp alpha.
#[derive(Debug, Clone, Copy, PartialEq, Eq, Hash, Structural)]
#[non_exhaustive]
pub enum LadderPosition {
    /// Primary label, solid.
    LabelPrimary,
    /// Secondary label, `@72`.
    LabelSecondary,
    /// Tertiary label, `@52`.
    LabelTertiary,
    /// Quaternary label, `@32`.
    LabelQuaternary,
    /// Primary fill, `@12`.
    FillPrimary,
    /// Secondary fill, `@8`.
    FillSecondary,
    /// Tertiary fill, `@4`.
    FillTertiary,
    /// Quaternary fill, `@2`.
    FillQuaternary,
    /// Base border, `@20`.
    BorderBase,
    /// Soft border, `@12`.
    BorderSoft,
    /// Strong border, solid.
    BorderStrong,
    /// Focus ring, solid.
    FocusRing,
    /// Glow, `@52`.
    Glow,
    /// Skeleton base, per-theme alpha (light `@8`, dark `@12`).
    SkeletonBase,
    /// Skeleton highlight, `@4`.
    SkeletonHighlight,
}

/// Kebab key of a ladder position.
pub open spec fn position_key(position: LadderPosition) -> Seq<char> {
    match position {
        LadderPosition::LabelPrimary => "label-primary"@,
        LadderPosition::LabelSecondary => "label-secondary"@,
        LadderPosition::LabelTertiary => "label-tertiary"@,
        LadderPosition::LabelQuaternary => "label-quaternary"@,
        LadderPosition::FillPrimary => "fill-primary"@,
        LadderPosition::FillSecondary => "fill-secondary"@,
        LadderPosition::FillTertiary => "fill-tertiary"@,
        LadderPosition::FillQuaternary => "fill-quaternary"@,
        LadderPosition::BorderBase => "border-base"@,
        LadderPosition::BorderSoft => "border-soft"@,
        LadderPosition::BorderStrong => "border-strong"@,
        LadderPosition::FocusRing => "focus-ring"@,
        LadderPosition::Glow => "glow"@,
        LadderPosition::SkeletonBase => "skeleton-base"@,
        LadderPosition::SkeletonHighlight => "skeleton-highlight"@,
    }
}

impl LadderPosition {
    /// Every position of the menu, in menu order.
    pub const ALL: [LadderPosition; 15] = [
        LadderPosition::LabelPrimary,
        LadderPosition::LabelSecondary,
        LadderPosition::LabelTertiary,
        LadderPosition::LabelQuaternary,
        LadderPosition::FillPrimary,
        LadderPosition::FillSecondary,
        LadderPosition::FillTertiary,
        LadderPosition::FillQuaternary,
        LadderPosition::BorderBase,
        LadderPosition::BorderSoft,
        LadderPosition::BorderStrong,
        LadderPosition::FocusRing,
        LadderPosition::Glow,
        LadderPosition::SkeletonBase,
        LadderPosition::SkeletonHighlight,
    ];

    /// Stable kebab key of the position, part of the naming contract.
    pub fn key(self) -> (key: &'static str)
        ensures
            key@ == position_key(self),
    {
        match self {
            LadderPosition::LabelPrimary => "label-primary",
            LadderPosition::LabelSecondary => "label-secondary",
            LadderPosition::LabelTertiary => "label-tertiary",
            LadderPosition::LabelQuaternary => "label-quaternary",
            LadderPosition::FillPrimary => "fill-primary",
            LadderPosition::FillSecondary => "fill-secondary",
            LadderPosition::FillTertiary => "fill-tertiary",
            LadderPosition::FillQuaternary => "fill-quaternary",
            LadderPosition::BorderBase => "border-base",
            LadderPosition::BorderSoft => "border-soft",
            LadderPosition::BorderStrong => "border-strong",
            LadderPosition::FocusRing => "focus-ring",
            LadderPosition::Glow => "glow",
            LadderPosition::SkeletonBase => "skeleton-base",
            LadderPosition::SkeletonHighlight => "skeleton-highlight",
        }
    }
}

/// Distinct positions have distinct keys: the naming contract is injective.
pub proof fn lemma_position_keys_are_distinct(a: LadderPosition, b: LadderPosition)
    ensures
        position_key(a) == position_key(b) ==> a == b,
{
    reveal_strlit("label-primary");
    reveal_strlit("label-secondary");
    reveal_strlit("label-tertiary");
    reveal_strlit("label-quaternary");
    reveal_strlit("fill-primary");
    reveal_strlit("fill-secondary");
    reveal_strlit("fill-tertiary");
    reveal_strlit("fill-quaternary");
    reveal_strlit("border-base");
    reveal_strlit("border-soft");
    reveal_strlit("border-strong");
    reveal_strlit("focus-ring");
    reveal_strlit("glow");
    reveal_strlit("skeleton-base");
    reveal_strlit("skeleton-highlight");
    if a != b {
        let (ka, kb) = (position_key(a), position_key(b));
        if ka.len() == kb.len() {
            assert(exists|i: int| 0 <= i < ka.len() && ka[i] != kb[i]) by {
                if ka[6] != kb[6] {
                    assert(ka[6] != kb[6]);
                } else if ka[0] != kb[0] {
                    assert(ka[0] != kb[0]);
                } else {
                    assert(ka[7] != kb[7]);
                }
            }
        }
    }
}

/// The menu lists every position exactly once.
pub proof fn lemma_menu_lists_every_position_once(position: LadderPosition)
    ensures
        exists|i: int| 0 <= i < 15 && LadderPosition::ALL@[i] == position,
        forall|i: int, j: int|
            0 <= i < j < 15 ==> LadderPosition::ALL@[i] != LadderPosition::ALL@[j],
{
    let all = LadderPosition::ALL@;
    match position {
        LadderPosition::LabelPrimary => assert(all[0] == position),
        LadderPosition::LabelSecondary => assert(all[1] == position),
        LadderPosition::LabelTertiary => assert(all[2] == position),
        LadderPosition::LabelQuaternary => assert(all[3] == position),
        LadderPosition::FillPrimary => assert(all[4] == position),
        LadderPosition::FillSecondary => assert(all[5] == position),
        LadderPosition::FillTertiary => assert(all[6] == position),
        LadderPosition::FillQuaternary => assert(all[7] == position),
        LadderPosition::BorderBase => assert(all[8] == position),
        LadderPosition::BorderSoft => assert(all[9] == position),
        LadderPosition::BorderStrong => assert(all[10] == position),
        LadderPosition::FocusRing => assert(all[11] == position),
        LadderPosition::Glow => assert(all[12] == position),
        LadderPosition::SkeletonBase => assert(all[13] == position),
        LadderPosition::SkeletonHighlight => assert(all[14] == position),
    }
}

} // verus!
