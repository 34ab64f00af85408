//! The style catalog: a closed set of named visual presets.
//!
//! Each preset maps text roles (headers, bold, italic, code, strikeout,
//! body) to colors and carries derived metadata: a canonical
//! lowercase-hyphenated identifier, a light/dark classification, and a
//! family/variant pair. All metadata is a pure function of the enum tag.

use vstd::prelude::*;

use crate::text::chars_of;
use crate::text::chars_eq_str;
use crate::text::lower_of;
use crate::text::lowercase;
use crate::text::spec_canonical_chars;

verus! {

/// A named visual preset for rendered help text.
#[derive(Debug, Clone, Copy, PartialEq, Eq, Structural)]
pub enum StylePreset {
    CatppuccinLatte,
    CatppuccinFrappe,
    CatppuccinMacchiato,
    CatppuccinMocha,
    RosePineMain,
    RosePineMoon,
    RosePineDawn,
    KanagawaWave,
    KanagawaDragon,
    KanagawaLotus,
}

/// The canonical lowercase-hyphenated identifier of a preset.
pub open spec fn spec_name(p: StylePreset) -> Seq<char> {
    match p {
        StylePreset::CatppuccinLatte => "catppuccin-latte"@,
        StylePreset::CatppuccinFrappe => "catppuccin-frappe"@,
        StylePreset::CatppuccinMacchiato => "catppuccin-macchiato"@,
        StylePreset::CatppuccinMocha => "catppuccin-mocha"@,
        StylePreset::RosePineMain => "rose-pine-main"@,
        StylePreset::RosePineMoon => "rose-pine-moon"@,
        StylePreset::RosePineDawn => "rose-pine-dawn"@,
        StylePreset::KanagawaWave => "kanagawa-wave"@,
        StylePreset::KanagawaDragon => "kanagawa-dragon"@,
        StylePreset::KanagawaLotus => "kanagawa-lotus"@,
    }
}

/// The ten presets, in catalog order.
pub open spec fn spec_all_presets() -> Seq<StylePreset> {
    seq![
        StylePreset::CatppuccinLatte,
        StylePreset::CatppuccinFrappe,
        StylePreset::CatppuccinMacchiato,
        StylePreset::CatppuccinMocha,
        StylePreset::RosePineMain,
        StylePreset::RosePineMoon,
        StylePreset::RosePineDawn,
        StylePreset::KanagawaWave,
        StylePreset::KanagawaDragon,
        StylePreset::KanagawaLotus,
    ]
}

/// Which preset, if any, a canonical identifier denotes.
pub open spec fn spec_preset_of_name(s: Seq<char>) -> Option<StylePreset> {
    if s == "catppuccin-latte"@ {
        Some(StylePreset::CatppuccinLatte)
    } else if s == "catppuccin-frappe"@ {
        Some(StylePreset::CatppuccinFrappe)
    } else if s == "catppuccin-macchiato"@ {
        Some(StylePreset::CatppuccinMacchiato)
    } else if s == "catppuccin-mocha"@ {
        Some(StylePreset::CatppuccinMocha)
    } else if s == "rose-pine-main"@ {
        Some(StylePreset::RosePineMain)
    } else if s == "rose-pine-moon"@ {
        Some(StylePreset::RosePineMoon)
    } else if s == "rose-pine-dawn"@ {
        Some(StylePreset::RosePineDawn)
    } else if s == "kanagawa-wave"@ {
        Some(StylePreset::KanagawaWave)
    } else if s == "kanagawa-dragon"@ {
        Some(StylePreset::KanagawaDragon)
    } else if s == "kanagawa-lotus"@ {
        Some(StylePreset::KanagawaLotus)
    } else {
        None
    }
}

impl StylePreset {
    /// Get all available preset names, in catalog order.
    pub fn all_names() -> (r: Vec<&'static str>)
        ensures
            r@.len() == spec_all_presets().len(),
            forall|i: int|
                0 <= i < r@.len() ==> #[trigger] r@[i]@ == spec_name(spec_all_presets()[i]),
    {
        let names: Vec<&'static str> = vec![
            "catppuccin-latte",
            "catppuccin-frappe",
            "catppuccin-macchiato",
            "catppuccin-mocha",
            "rose-pine-main",
            "rose-pine-moon",
            "rose-pine-dawn",
            "kanagawa-wave",
            "kanagawa-dragon",
            "kanagawa-lotus",
        ];
        proof {
            assert forall|i: int| 0 <= i < names@.len() implies #[trigger] names@[i]@ == spec_name(
                spec_all_presets()[i],
            ) by {
                if i == 0 {
                } else if i == 1 {
                } else if i == 2 {
                } else if i == 3 {
                } else if i == 4 {
                } else if i == 5 {
                } else if i == 6 {
                } else if i == 7 {
                } else if i == 8 {
                } else {
                    assert(i == 9);
                }
            }
        }
        names
    }

    /// Parse a preset from a string name, insensitively to case: the
    /// name is folded through Unicode lowercasing before lookup, and a
    /// name that is already canonical resolves to its preset.
    pub fn from_name(name: &str) -> (r: Option<StylePreset>)
        ensures
            r == spec_preset_of_name(lower_of(name@)),
            spec_preset_of_name(name@) is Some ==> r == spec_preset_of_name(name@),
    {
        let low = lowercase(name);
        let folded = chars_of(low.as_str());
        proof {
            lemma_canonical_ids();
        }
        if chars_eq_str(&folded, "catppuccin-latte") {
            Some(Self::CatppuccinLatte)
        } else if chars_eq_str(&folded, "catppuccin-frappe") {
            Some(Self::CatppuccinFrappe)
        } else if chars_eq_str(&folded, "catppuccin-macchiato") {
            Some(Self::CatppuccinMacchiato)
        } else if chars_eq_str(&folded, "catppuccin-mocha") {
            Some(Self::CatppuccinMocha)
        } else if chars_eq_str(&folded, "rose-pine-main") {
            Some(Self::RosePineMain)
        } else if chars_eq_str(&folded, "rose-pine-moon") {
            Some(Self::RosePineMoon)
        } else if chars_eq_str(&folded, "rose-pine-dawn") {
            Some(Self::RosePineDawn)
        } else if chars_eq_str(&folded, "kanagawa-wave") {
            Some(Self::KanagawaWave)
        } else if chars_eq_str(&folded, "kanagawa-dragon") {
            Some(Self::KanagawaDragon)
        } else if chars_eq_str(&folded, "kanagawa-lotus") {
            Some(Self::KanagawaLotus)
        } else {
            None
        }
    }

    /// Get the preset name as a string: the canonical identifier.
    pub fn name(&self) -> (r: &'static str)
        ensures
            r@ == spec_name(*self),
    {
        match self {
            Self::CatppuccinLatte => "catppuccin-latte",
            Self::CatppuccinFrappe => "catppuccin-frappe",
            Self::CatppuccinMacchiato => "catppuccin-macchiato",
            Self::CatppuccinMocha => "catppuccin-mocha",
            Self::RosePineMain => "rose-pine-main",
            Self::RosePineMoon => "rose-pine-moon",
            Self::RosePineDawn => "rose-pine-dawn",
            Self::KanagawaWave => "kanagawa-wave",
            Self::KanagawaDragon => "kanagawa-dragon",
            Self::KanagawaLotus => "kanagawa-lotus",
        }
    }

    /// Check if this is a light theme.
    pub fn is_light(&self) -> (r: bool)
        ensures
            r == spec_is_light(*self),
    {
        matches!(
            self,
            Self::CatppuccinLatte | Self::RosePineDawn | Self::KanagawaLotus
        )
    }

    /// Get the theme family name.
    pub fn family(&self) -> (r: &'static str)
        ensures
            r@ == spec_family(*self),
    {
        match self {
            Self::CatppuccinLatte
            | Self::CatppuccinFrappe
            | Self::CatppuccinMacchiato
            | Self::CatppuccinMocha => "Catppuccin",
            Self::RosePineMain | Self::RosePineMoon | Self::RosePineDawn => "Rose Pine",
            Self::KanagawaWave | Self::KanagawaDragon | Self::KanagawaLotus => "Kanagawa",
        }
    }

    /// Get the variant name within the theme family.
    pub fn variant(&self) -> (r: &'static str)
        ensures
            r@ == spec_variant(*self),
    {
        match self {
            Self::CatppuccinLatte => "Latte",
            Self::CatppuccinFrappe => "Frapp\u{e9}",
            Self::CatppuccinMacchiato => "Macchiato",
            Self::CatppuccinMocha => "Mocha",
            Self::RosePineMain => "Main",
            Self::RosePineMoon => "Moon",
            Self::RosePineDawn => "Dawn",
            Self::KanagawaWave => "Wave",
            Self::KanagawaDragon => "Dragon",
            Self::KanagawaLotus => "Lotus",
        }
    }
}

/// Whether a preset is a light theme: true of exactly the three light variants.
pub open spec fn spec_is_light(p: StylePreset) -> bool {
    p == StylePreset::CatppuccinLatte || p == StylePreset::RosePineDawn || p
        == StylePreset::KanagawaLotus
}

/// The family name of a preset.
pub open spec fn spec_family(p: StylePreset) -> Seq<char> {
    match p {
        StylePreset::CatppuccinLatte
        | StylePreset::CatppuccinFrappe
        | StylePreset::CatppuccinMacchiato
        | StylePreset::CatppuccinMocha => "Catppuccin"@,
        StylePreset::RosePineMain | StylePreset::RosePineMoon | StylePreset::RosePineDawn => (
        "Rose Pine"@),
        StylePreset::KanagawaWave | StylePreset::KanagawaDragon | StylePreset::KanagawaLotus => (
        "Kanagawa"@),
    }
}

/// The variant name of a preset within its family.
pub open spec fn spec_variant(p: StylePreset) -> Seq<char> {
    match p {
        StylePreset::CatppuccinLatte => "Latte"@,
        StylePreset::CatppuccinFrappe => "Frapp\u{e9}"@,
        StylePreset::CatppuccinMacchiato => "Macchiato"@,
        StylePreset::CatppuccinMocha => "Mocha"@,
        StylePreset::RosePineMain => "Main"@,
        StylePreset::RosePineMoon => "Moon"@,
        StylePreset::RosePineDawn => "Dawn"@,
        StylePreset::KanagawaWave => "Wave"@,
        StylePreset::KanagawaDragon => "Dragon"@,
        StylePreset::KanagawaLotus => "Lotus"@,
    }
}

/// Reveal the views of the ten canonical identifier literals.
proof fn reveal_preset_names()
    ensures
        spec_name(StylePreset::CatppuccinLatte).len() == 16,
        spec_name(StylePreset::CatppuccinFrappe).len() == 17,
        spec_name(StylePreset::CatppuccinMacchiato).len() == 20,
        spec_name(StylePreset::CatppuccinMocha).len() == 16,
        spec_name(StylePreset::RosePineMain).len() == 14,
        spec_name(StylePreset::RosePineMoon).len() == 14,
        spec_name(StylePreset::RosePineDawn).len() == 14,
        spec_name(StylePreset::KanagawaWave).len() == 13,
        spec_name(StylePreset::KanagawaDragon).len() == 15,
        spec_name(StylePreset::KanagawaLotus).len() == 14,
        spec_name(StylePreset::CatppuccinLatte) != spec_name(StylePreset::CatppuccinMocha),
        spec_name(StylePreset::RosePineMain) != spec_name(StylePreset::RosePineMoon),
        spec_name(StylePreset::RosePineMain) != spec_name(StylePreset::RosePineDawn),
        spec_name(StylePreset::RosePineMain) != spec_name(StylePreset::KanagawaLotus),
        spec_name(StylePreset::RosePineMoon) != spec_name(StylePreset::RosePineDawn),
        spec_name(StylePreset::RosePineMoon) != spec_name(StylePreset::KanagawaLotus),
        spec_name(StylePreset::RosePineDawn) != spec_name(StylePreset::KanagawaLotus),
{
    reveal_strlit("catppuccin-latte");
    reveal_strlit("catppuccin-frappe");
    reveal_strlit("catppuccin-macchiato");
    reveal_strlit("catppuccin-mocha");
    reveal_strlit("rose-pine-main");
    reveal_strlit("rose-pine-moon");
    reveal_strlit("rose-pine-dawn");
    reveal_strlit("kanagawa-wave");
    reveal_strlit("kanagawa-dragon");
    reveal_strlit("kanagawa-lotus");
    assert("catppuccin-latte"@[11] != "catppuccin-mocha"@[11]);
    assert("rose-pine-main"@[11] != "rose-pine-moon"@[11]);
    assert("rose-pine-main"@[10] != "rose-pine-dawn"@[10]);
    assert("rose-pine-main"@[0] != "kanagawa-lotus"@[0]);
    assert("rose-pine-moon"@[10] != "rose-pine-dawn"@[10]);
    assert("rose-pine-moon"@[0] != "kanagawa-lotus"@[0]);
    assert("rose-pine-dawn"@[0] != "kanagawa-lotus"@[0]);
}

/// Round-trip law: every preset is found again under its own canonical
/// identifier. Together with `from_name`'s contract this gives
/// `from_name(p.name()) == Some(p)` for every preset, since a canonical
/// identifier resolves as it stands.
pub proof fn lemma_preset_round_trip(p: StylePreset)
    ensures
        spec_preset_of_name(spec_name(p)) == Some(p),
{
    reveal_preset_names();
}

/// An identifier the catalog recognizes is written in ASCII lowercase
/// letters and hyphens.
proof fn lemma_canonical_ids()
    ensures
        forall|s: Seq<char>|
            #[trigger] spec_preset_of_name(s) is Some ==> spec_canonical_chars(s),
{
    reveal_strlit("catppuccin-latte");
    reveal_strlit("catppuccin-frappe");
    reveal_strlit("catppuccin-macchiato");
    reveal_strlit("catppuccin-mocha");
    reveal_strlit("rose-pine-main");
    reveal_strlit("rose-pine-moon");
    reveal_strlit("rose-pine-dawn");
    reveal_strlit("kanagawa-wave");
    reveal_strlit("kanagawa-dragon");
    reveal_strlit("kanagawa-lotus");
    assert(spec_canonical_chars("catppuccin-latte"@));
    assert(spec_canonical_chars("catppuccin-frappe"@));
    assert(spec_canonical_chars("catppuccin-macchiato"@));
    assert(spec_canonical_chars("catppuccin-mocha"@));
    assert(spec_canonical_chars("rose-pine-main"@));
    assert(spec_canonical_chars("rose-pine-moon"@));
    assert(spec_canonical_chars("rose-pine-dawn"@));
    assert(spec_canonical_chars("kanagawa-wave"@));
    assert(spec_canonical_chars("kanagawa-dragon"@));
    assert(spec_canonical_chars("kanagawa-lotus"@));
}

} // verus!
