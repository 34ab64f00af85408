use clap_help::StylePreset;

#[test]
fn all_names_lists_ten_in_catalog_order() {
    let names = StylePreset::all_names();
    assert_eq!(
        names,
        vec![
            "catppuccin-latte",
            "catppuccin-frappe",
            "catppuccin-macchiato",
            "catppuccin-mocha",
            "rose-pine-main",
            "rose-pine-moon",
            "rose-pine-dawn",
            "kanagawa-wave",
            "kanagawa-dragon",
            "kanagawa-lotus",
        ]
    );
}

#[test]
fn every_identifier_round_trips() {
    for name in StylePreset::all_names() {
        let preset = StylePreset::from_name(name).expect("identifier should resolve");
        assert_eq!(preset.name(), name);
    }
}

#[test]
fn lookup_is_case_insensitive() {
    assert_eq!(
        StylePreset::from_name("Catppuccin-MOCHA"),
        Some(StylePreset::CatppuccinMocha)
    );
    assert_eq!(
        StylePreset::from_name("ROSE-PINE-DAWN"),
        Some(StylePreset::RosePineDawn)
    );
}

#[test]
fn lookup_folds_unicode_case() {
    // U+212A (Kelvin sign) lowercases to a plain 'k'
    assert_eq!(
        StylePreset::from_name("\u{212A}anagawa-wave"),
        Some(StylePreset::KanagawaWave)
    );
}

#[test]
fn unknown_identifier_is_rejected() {
    assert_eq!(StylePreset::from_name("gruvbox"), None);
    assert_eq!(StylePreset::from_name(""), None);
    assert_eq!(StylePreset::from_name("catppuccin"), None);
}

#[test]
fn light_presets_are_exactly_three() {
    let light: Vec<&str> = StylePreset::all_names()
        .into_iter()
        .filter(|n| StylePreset::from_name(n).unwrap().is_light())
        .collect();
    assert_eq!(
        light,
        vec!["catppuccin-latte", "rose-pine-dawn", "kanagawa-lotus"]
    );
}

#[test]
fn family_and_variant_are_derived_from_the_tag() {
    assert_eq!(StylePreset::CatppuccinMocha.family(), "Catppuccin");
    assert_eq!(StylePreset::CatppuccinMocha.variant(), "Mocha");
    assert_eq!(StylePreset::RosePineMain.family(), "Rose Pine");
    assert_eq!(StylePreset::RosePineMain.variant(), "Main");
    assert_eq!(StylePreset::KanagawaDragon.family(), "Kanagawa");
    assert_eq!(StylePreset::KanagawaDragon.variant(), "Dragon");
}

#[test]
fn create_mapping_is_referentially_stable() {
    let a = StylePreset::KanagawaWave.create_mapping();
    let b = StylePreset::KanagawaWave.create_mapping();
    assert_eq!(a.headers, b.headers);
    assert_eq!(a.bold, b.bold);
    assert_eq!(a.italic, b.italic);
    assert_eq!(a.code_block, b.code_block);
    assert_eq!(a.inline_code, b.inline_code);
    assert_eq!(a.strikeout, b.strikeout);
    assert_eq!(a.paragraph, b.paragraph);
    assert_eq!(a.headers, (149, 127, 184));
}

#[test]
fn create_skin_builds_for_every_preset() {
    for name in StylePreset::all_names() {
        let preset = StylePreset::from_name(name).unwrap();
        let _skin = preset.create_skin();
    }
}
