use clap_help::ArgModel;
use clap_help::CommandModel;
use clap_help::LumaClass;
use clap_help::Printer;
use clap_help::StylePreset;
use clap_help::printer::unified_width;
use clap_help::templates::TEMPLATE_OPTIONS_LIST;

fn sample_command() -> CommandModel {
    let mut cmd = CommandModel::new("prog".to_string());
    cmd.version = Some("1.0".to_string());
    cmd.about = Some("a sample program".to_string());
    cmd.after_help = Some("try `prog -h`".to_string());
    let mut verbose = ArgModel::new();
    verbose.short = Some('v');
    verbose.long = Some("verbose".to_string());
    verbose.help = Some("say more".to_string());
    cmd.args = vec![verbose];
    cmd
}

#[test]
fn default_set_renders_eight_sections() {
    // nine keys are listed, but "introduction" has no built-in template
    let printer = Printer::new(&sample_command());
    let sections = printer.expanded_sections();
    assert_eq!(sections.len(), 8);
}

#[test]
fn title_section_expands_name_and_version() {
    let printer = Printer::new(&sample_command());
    let sections = printer.expanded_sections();
    assert_eq!(sections[0], "# **prog** 1.0");
}

#[test]
fn removing_a_template_silences_only_its_section() {
    let printer = Printer::new(&sample_command());
    let before = printer.expanded_sections();
    let without = Printer::new(&sample_command()).without("examples");
    let after = without.expanded_sections();
    assert_eq!(after.len(), before.len() - 1);
    assert_eq!(&after[..], &before[..before.len() - 1]);
}

#[test]
fn readding_the_template_restores_the_section_in_place() {
    let printer = Printer::new(&sample_command());
    let before = printer.expanded_sections();
    let roundtrip = Printer::new(&sample_command())
        .without("examples")
        .with("examples", "\n**Examples:**\n${after_help}\n");
    assert_eq!(roundtrip.expanded_sections(), before);
}

#[test]
fn a_custom_template_can_be_added_under_a_listed_key() {
    let mut printer = Printer::new(&sample_command());
    printer.set_template("introduction", "intro for ${name}");
    let sections = printer.expanded_sections();
    assert_eq!(sections.len(), 9);
    assert_eq!(sections[3], "intro for prog");
}

#[test]
fn overridden_variables_reach_the_templates() {
    let mut printer = Printer::new(&sample_command());
    printer.set_var("name", "other".to_string());
    printer.set_template("introduction", "${name}");
    let sections = printer.expanded_sections();
    assert_eq!(sections[3], "other");
}

#[test]
fn unified_width_is_the_maximum_of_the_content_widths() {
    assert_eq!(unified_width(&vec![20, 60]), 60);
    assert_eq!(unified_width(&vec![60, 20]), 60);
    assert_eq!(unified_width(&vec![33]), 33);
    assert_eq!(unified_width(&vec![]), 0);
    assert_eq!(unified_width(&vec![7, 7, 7]), 7);
}

#[test]
fn usage_section_expands_exactly() {
    let printer = Printer::new(&sample_command());
    let sections = printer.expanded_sections();
    // keys in order: title, author, description, usage, positionals, ...
    assert_eq!(sections[3], "\n**Usage: ** `prog [options]`\n");
}

#[test]
fn an_alternate_options_template_can_be_used() {
    let printer = Printer::new(&sample_command()).with("options", TEMPLATE_OPTIONS_LIST);
    let sections = printer.expanded_sections();
    assert_eq!(sections.len(), 8);
    assert!(sections[5].contains("`-v, --verbose`"));
    assert!(sections[5].contains("*say more*"));
}

#[test]
fn content_width_mode_unifies_to_the_widest_block() {
    let printer = Printer::new(&sample_command());
    let narrow = "x".repeat(20);
    let wide = "y".repeat(60);
    let w_narrow = printer.measured_width(&narrow, 100);
    let w_wide = printer.measured_width(&wide, 100);
    assert_eq!(w_narrow, 20);
    assert_eq!(w_wide, 60);
    // content-width mode re-renders every block at the unified width
    assert_eq!(unified_width(&vec![w_narrow, w_wide]), 60);
    // full-width mode leaves each block at its own natural width
    assert_eq!(w_narrow, 20);
    assert_eq!(w_wide, 60);
}

#[test]
fn print_help_runs_in_both_modes() {
    let mut printer = Printer::new(&sample_command()).with_max_width(80);
    printer.print_help();
    printer.full_width = true;
    printer.print_help();
}

#[test]
fn print_template_accepts_a_raw_template() {
    let printer = Printer::new(&sample_command());
    printer.print_template("**Usage:** ${name}");
}

#[test]
fn make_skin_covers_every_luma_class() {
    let _light = Printer::make_skin(LumaClass::Light);
    let _dark = Printer::make_skin(LumaClass::Dark);
    let _other = Printer::make_skin(LumaClass::Other);
}

#[test]
fn a_preset_skin_can_drive_the_printer() {
    let skin = StylePreset::CatppuccinMocha.create_skin();
    let printer = Printer::new(&sample_command()).with_skin(skin);
    printer.print_help();
}
