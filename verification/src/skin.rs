//! Skin construction: each style preset's fixed role-to-color table, and
//! its application to the terminal renderer's skin.

use vstd::prelude::*;

use crate::preset::StylePreset;

verus! {

#[verifier::external_type_specification]
#[verifier::external_body]
pub struct ExMadSkin(termimad::MadSkin);

/// A fixed role-to-color table: RGB components for each text role.
#[derive(Debug, Clone, Copy)]
pub struct ColorMapping {
    pub headers: (u8, u8, u8),
    pub bold: (u8, u8, u8),
    pub italic: (u8, u8, u8),
    pub code_block: (u8, u8, u8),
    pub inline_code: (u8, u8, u8),
    pub strikeout: (u8, u8, u8),
    pub paragraph: (u8, u8, u8),
}

/// The role-to-color table of a preset: a pure function of the tag.
pub open spec fn spec_color_mapping(p: StylePreset) -> ColorMapping {
    match p {
        StylePreset::CatppuccinLatte => ColorMapping {
            headers: (136, 57, 239),
            bold: (210, 15, 57),
            italic: (234, 118, 203),
            code_block: (64, 160, 43),
            inline_code: (23, 146, 153),
            strikeout: (108, 111, 133),
            paragraph: (76, 79, 105),
        },
        StylePreset::CatppuccinFrappe => ColorMapping {
            headers: (202, 158, 230),
            bold: (231, 130, 132),
            italic: (244, 184, 228),
            code_block: (166, 209, 137),
            inline_code: (129, 200, 190),
            strikeout: (165, 173, 206),
            paragraph: (198, 208, 245),
        },
        StylePreset::CatppuccinMacchiato => ColorMapping {
            headers: (198, 160, 246),
            bold: (237, 135, 150),
            italic: (245, 189, 230),
            code_block: (166, 218, 149),
            inline_code: (139, 213, 202),
            strikeout: (165, 173, 203),
            paragraph: (202, 211, 245),
        },
        StylePreset::CatppuccinMocha => ColorMapping {
            headers: (203, 166, 247),
            bold: (243, 139, 168),
            italic: (245, 194, 231),
            code_block: (166, 227, 161),
            inline_code: (148, 226, 213),
            strikeout: (166, 173, 200),
            paragraph: (205, 214, 244),
        },
        StylePreset::RosePineMain => ColorMapping {
            headers: (196, 167, 231),
            bold: (235, 111, 146),
            italic: (246, 193, 119),
            code_block: (49, 116, 143),
            inline_code: (156, 207, 216),
            strikeout: (110, 106, 134),
            paragraph: (224, 222, 244),
        },
        StylePreset::RosePineMoon => ColorMapping {
            headers: (196, 167, 231),
            bold: (235, 111, 146),
            italic: (246, 193, 119),
            code_block: (62, 143, 176),
            inline_code: (156, 207, 216),
            strikeout: (110, 106, 134),
            paragraph: (224, 222, 244),
        },
        StylePreset::RosePineDawn => ColorMapping {
            headers: (144, 122, 169),
            bold: (180, 99, 122),
            italic: (234, 157, 52),
            code_block: (40, 105, 131),
            inline_code: (86, 148, 159),
            strikeout: (152, 147, 165),
            paragraph: (87, 82, 121),
        },
        StylePreset::KanagawaWave => ColorMapping {
            headers: (149, 127, 184),
            bold: (192, 163, 110),
            italic: (255, 160, 102),
            code_block: (118, 148, 106),
            inline_code: (122, 168, 159),
            strikeout: (84, 84, 109),
            paragraph: (220, 215, 186),
        },
        StylePreset::KanagawaDragon => ColorMapping {
            headers: (139, 164, 176),
            bold: (196, 116, 110),
            italic: (196, 178, 138),
            code_block: (135, 169, 135),
            inline_code: (142, 164, 162),
            strikeout: (98, 94, 90),
            paragraph: (197, 201, 197),
        },
        StylePreset::KanagawaLotus => ColorMapping {
            headers: (111, 92, 124),
            bold: (200, 64, 83),
            italic: (204, 109, 0),
            code_block: (111, 137, 78),
            inline_code: (89, 123, 117),
            strikeout: (113, 110, 97),
            paragraph: (84, 84, 100),
        },
    }
}

/// Relies on termimad's `MadSkin::default`: a plain skin with default styles.
#[verifier::external_body]
pub(crate) fn skin_default() -> termimad::MadSkin {
    termimad::MadSkin::default()
}

/// Relies on termimad's `MadSkin::default_light`: a skin for light terminals.
#[verifier::external_body]
pub(crate) fn skin_default_light() -> termimad::MadSkin {
    termimad::MadSkin::default_light()
}

/// Relies on termimad's `MadSkin::default_dark`: a skin for dark terminals.
#[verifier::external_body]
pub(crate) fn skin_default_dark() -> termimad::MadSkin {
    termimad::MadSkin::default_dark()
}

/// Relies on termimad's `MadSkin::set_headers_fg` and `rgb`: set the
/// foreground color of all header levels.
#[verifier::external_body]
pub(crate) fn skin_set_headers_fg(skin: &mut termimad::MadSkin, r: u8, g: u8, b: u8) {
    skin.set_headers_fg(termimad::rgb(r, g, b));
}

/// Relies on termimad's `CompoundStyle::set_fg` and `rgb`: set the bold
/// style's foreground color.
#[verifier::external_body]
pub(crate) fn skin_set_bold_fg(skin: &mut termimad::MadSkin, r: u8, g: u8, b: u8) {
    skin.bold.set_fg(termimad::rgb(r, g, b));
}

/// Relies on termimad's `CompoundStyle::set_fg` and `rgb`: set the italic
/// style's foreground color.
#[verifier::external_body]
pub(crate) fn skin_set_italic_fg(skin: &mut termimad::MadSkin, r: u8, g: u8, b: u8) {
    skin.italic.set_fg(termimad::rgb(r, g, b));
}

/// Relies on termimad's `LineStyle::set_fg` and `rgb`: set the code-block
/// style's foreground color.
#[verifier::external_body]
pub(crate) fn skin_set_code_block_fg(skin: &mut termimad::MadSkin, r: u8, g: u8, b: u8) {
    skin.code_block.set_fg(termimad::rgb(r, g, b));
}

/// Relies on termimad's `CompoundStyle::set_fg` and `rgb`: set the
/// inline-code style's foreground color.
#[verifier::external_body]
pub(crate) fn skin_set_inline_code_fg(skin: &mut termimad::MadSkin, r: u8, g: u8, b: u8) {
    skin.inline_code.set_fg(termimad::rgb(r, g, b));
}

/// Relies on termimad's `CompoundStyle::set_fg` and `rgb`: set the
/// strikeout style's foreground color.
#[verifier::external_body]
pub(crate) fn skin_set_strikeout_fg(skin: &mut termimad::MadSkin, r: u8, g: u8, b: u8) {
    skin.strikeout.set_fg(termimad::rgb(r, g, b));
}

/// Relies on termimad's `LineStyle::set_fg` and `rgb`: set the paragraph
/// style's foreground color.
#[verifier::external_body]
pub(crate) fn skin_set_paragraph_fg(skin: &mut termimad::MadSkin, r: u8, g: u8, b: u8) {
    skin.paragraph.set_fg(termimad::rgb(r, g, b));
}

impl StylePreset {
    /// The preset's role-to-color table: pure and referentially stable.
    pub fn create_mapping(&self) -> (r: ColorMapping)
        ensures
            r == spec_color_mapping(*self),
    {
        match self {
            Self::CatppuccinLatte => ColorMapping {
                headers: (136, 57, 239),
                bold: (210, 15, 57),
                italic: (234, 118, 203),
                code_block: (64, 160, 43),
                inline_code: (23, 146, 153),
                strikeout: (108, 111, 133),
                paragraph: (76, 79, 105),
            },
            Self::CatppuccinFrappe => ColorMapping {
                headers: (202, 158, 230),
                bold: (231, 130, 132),
                italic: (244, 184, 228),
                code_block: (166, 209, 137),
                inline_code: (129, 200, 190),
                strikeout: (165, 173, 206),
                paragraph: (198, 208, 245),
            },
            Self::CatppuccinMacchiato => ColorMapping {
                headers: (198, 160, 246),
                bold: (237, 135, 150),
                italic: (245, 189, 230),
                code_block: (166, 218, 149),
                inline_code: (139, 213, 202),
                strikeout: (165, 173, 203),
                paragraph: (202, 211, 245),
            },
            Self::CatppuccinMocha => ColorMapping {
                headers: (203, 166, 247),
                bold: (243, 139, 168),
                italic: (245, 194, 231),
                code_block: (166, 227, 161),
                inline_code: (148, 226, 213),
                strikeout: (166, 173, 200),
                paragraph: (205, 214, 244),
            },
            Self::RosePineMain => ColorMapping {
                headers: (196, 167, 231),
                bold: (235, 111, 146),
                italic: (246, 193, 119),
                code_block: (49, 116, 143),
                inline_code: (156, 207, 216),
                strikeout: (110, 106, 134),
                paragraph: (224, 222, 244),
            },
            Self::RosePineMoon => ColorMapping {
                headers: (196, 167, 231),
                bold: (235, 111, 146),
                italic: (246, 193, 119),
                code_block: (62, 143, 176),
                inline_code: (156, 207, 216),
                strikeout: (110, 106, 134),
                paragraph: (224, 222, 244),
            },
            Self::RosePineDawn => ColorMapping {
                headers: (144, 122, 169),
                bold: (180, 99, 122),
                italic: (234, 157, 52),
                code_block: (40, 105, 131),
                inline_code: (86, 148, 159),
                strikeout: (152, 147, 165),
                paragraph: (87, 82, 121),
            },
            Self::KanagawaWave => ColorMapping {
                headers: (149, 127, 184),
                bold: (192, 163, 110),
                italic: (255, 160, 102),
                code_block: (118, 148, 106),
                inline_code: (122, 168, 159),
                strikeout: (84, 84, 109),
                paragraph: (220, 215, 186),
            },
            Self::KanagawaDragon => ColorMapping {
                headers: (139, 164, 176),
                bold: (196, 116, 110),
                italic: (196, 178, 138),
                code_block: (135, 169, 135),
                inline_code: (142, 164, 162),
                strikeout: (98, 94, 90),
                paragraph: (197, 201, 197),
            },
            Self::KanagawaLotus => ColorMapping {
                headers: (111, 92, 124),
                bold: (200, 64, 83),
                italic: (204, 109, 0),
                code_block: (111, 137, 78),
                inline_code: (89, 123, 117),
                strikeout: (113, 110, 97),
                paragraph: (84, 84, 100),
            },
        }
    }

    /// Create a terminal skin carrying the preset's role-to-color table.
    pub fn create_skin(&self) -> termimad::MadSkin {
        let m = self.create_mapping();
        let mut skin = skin_default();
        skin_set_headers_fg(&mut skin, m.headers.0, m.headers.1, m.headers.2);
        skin_set_bold_fg(&mut skin, m.bold.0, m.bold.1, m.bold.2);
        skin_set_italic_fg(&mut skin, m.italic.0, m.italic.1, m.italic.2);
        skin_set_code_block_fg(&mut skin, m.code_block.0, m.code_block.1, m.code_block.2);
        skin_set_inline_code_fg(&mut skin, m.inline_code.0, m.inline_code.1, m.inline_code.2);
        skin_set_strikeout_fg(&mut skin, m.strikeout.0, m.strikeout.1, m.strikeout.2);
        skin_set_paragraph_fg(&mut skin, m.paragraph.0, m.paragraph.1, m.paragraph.2);
        skin
    }
}

} // verus!
