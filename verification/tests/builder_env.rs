use clap_help::ArgKind;
use clap_help::ArgModel;
use clap_help::CommandModel;
use clap_help::SubcommandModel;
use clap_help::builder::build_env;
use clap_help::env::SubEnv;
use clap_help::env::VarEnv;

fn chars(s: &str) -> Vec<char> {
    s.chars().collect()
}

fn option_lines(env: &VarEnv) -> Vec<SubEnv> {
    env.subs_of(&chars("option-lines"))
}

fn lookup(sub: &SubEnv, name: &str) -> Option<(String, bool)> {
    sub.lookup(&chars(name))
}

fn flag_arg(short: Option<char>, long: Option<&str>) -> ArgModel {
    let mut a = ArgModel::new();
    a.short = short;
    a.long = long.map(|l| l.to_string());
    a
}

fn command_with_args(args: Vec<ArgModel>) -> CommandModel {
    let mut cmd = CommandModel::new("prog".to_string());
    cmd.args = args;
    cmd
}

#[test]
fn name_prefers_the_binary_name() {
    let mut cmd = CommandModel::new("prog".to_string());
    cmd.bin_name = Some("bin-prog".to_string());
    let env = build_env(&cmd);
    let v = env.lookup(&chars("name")).expect("name should be bound");
    assert_eq!(v.0, "bin-prog");

    let cmd2 = CommandModel::new("prog".to_string());
    let env2 = build_env(&cmd2);
    assert_eq!(env2.lookup(&chars("name")).unwrap().0, "prog");
}

#[test]
fn absent_metadata_stays_unbound() {
    let cmd = CommandModel::new("prog".to_string());
    let env = build_env(&cmd);
    assert!(env.lookup(&chars("author")).is_none());
    assert!(env.lookup(&chars("version")).is_none());
    assert!(env.lookup(&chars("about")).is_none());
    assert!(env.lookup(&chars("after_help")).is_none());
}

#[test]
fn about_and_after_help_are_markdown_flagged() {
    let mut cmd = CommandModel::new("prog".to_string());
    cmd.author = Some("ada".to_string());
    cmd.about = Some("does things".to_string());
    cmd.after_help = Some("see more".to_string());
    let env = build_env(&cmd);
    assert_eq!(env.lookup(&chars("author")).unwrap(), ("ada".to_string(), false));
    assert_eq!(env.lookup(&chars("about")).unwrap(), ("does things".to_string(), true));
    assert_eq!(env.lookup(&chars("after_help")).unwrap(), ("see more".to_string(), true));
}

#[test]
fn flags_compact_takes_its_four_forms() {
    let cases = vec![
        (Some('x'), Some("longname"), "-x, --longname"),
        (None, Some("longname"), "    --longname"),
        (Some('x'), None, "-x"),
    ];
    for (short, long, expected) in cases {
        let cmd = command_with_args(vec![flag_arg(short, long)]);
        let env = build_env(&cmd);
        let lines = option_lines(&env);
        assert_eq!(lines.len(), 1);
        assert_eq!(lookup(&lines[0], "flags-compact").unwrap().0, expected);
    }
    // with neither flag, the argument is not an option row at all
    let cmd = command_with_args(vec![flag_arg(None, None)]);
    assert_eq!(option_lines(&build_env(&cmd)).len(), 0);
}

#[test]
fn hidden_arguments_are_left_out() {
    let mut hidden = flag_arg(Some('h'), Some("hidden"));
    hidden.hidden = true;
    let cmd = command_with_args(vec![hidden, flag_arg(Some('v'), None)]);
    let lines = option_lines(&build_env(&cmd));
    assert_eq!(lines.len(), 1);
    assert_eq!(lookup(&lines[0], "flags-compact").unwrap().0, "-v");
}

#[test]
fn value_names_mirror_to_the_declared_flags() {
    let mut a = flag_arg(Some('f'), Some("file"));
    a.kind = ArgKind::StoreValue;
    a.value_names = vec!["PATH".to_string()];
    let cmd = command_with_args(vec![a]);
    let lines = option_lines(&build_env(&cmd));
    let row = &lines[0];
    assert_eq!(lookup(row, "value").unwrap().0, "PATH");
    assert_eq!(lookup(row, "value-braced").unwrap().0, "<PATH>");
    assert_eq!(lookup(row, "value-short-braced").unwrap().0, "<PATH>");
    assert_eq!(lookup(row, "value-short").unwrap().0, "PATH");
    assert_eq!(lookup(row, "value-long-braced").unwrap().0, "<PATH>");
    assert_eq!(lookup(row, "value-long").unwrap().0, "PATH");
}

#[test]
fn boolean_flags_bind_no_value_names() {
    let mut a = flag_arg(Some('q'), Some("quiet"));
    a.kind = ArgKind::Flag;
    a.value_names = vec!["IGNORED".to_string()];
    let cmd = command_with_args(vec![a]);
    let lines = option_lines(&build_env(&cmd));
    assert!(lookup(&lines[0], "value").is_none());
    assert!(lookup(&lines[0], "value-braced").is_none());
}

#[test]
fn default_is_suppressed_for_boolean_flags() {
    let mut flag = flag_arg(None, Some("verbose"));
    flag.kind = ArgKind::Flag;
    flag.default_values = vec!["false".to_string()];
    let cmd = command_with_args(vec![flag]);
    let lines = option_lines(&build_env(&cmd));
    assert!(lookup(&lines[0], "default").is_none());
    assert!(lookup(&lines[0], "details-default").is_none());
}

#[test]
fn default_is_shown_for_value_storing_arguments() {
    let mut a = flag_arg(None, Some("level"));
    a.kind = ArgKind::StoreValue;
    a.default_values = vec!["info".to_string()];
    let cmd = command_with_args(vec![a]);
    let lines = option_lines(&build_env(&cmd));
    assert_eq!(
        lookup(&lines[0], "default").unwrap(),
        (" Default: `info`".to_string(), true)
    );
    assert_eq!(
        lookup(&lines[0], "details-default").unwrap(),
        ("\n    * *Default*: `info`".to_string(), true)
    );
}

#[test]
fn possible_values_render_inline_in_order() {
    let mut a = flag_arg(None, Some("color"));
    a.possible_values = vec!["a".to_string(), "b".to_string(), "c".to_string()];
    let cmd = command_with_args(vec![a]);
    let lines = option_lines(&build_env(&cmd));
    assert_eq!(
        lookup(&lines[0], "possible_values").unwrap(),
        (" Possible values: [`a`, `b`, `c`]".to_string(), true)
    );
    assert_eq!(
        lookup(&lines[0], "details-possible-values").unwrap(),
        ("\n    * *Possible values*: `a`, `b`, `c`".to_string(), true)
    );
}

#[test]
fn environment_binding_gets_a_details_line() {
    let mut a = flag_arg(None, Some("port"));
    a.env_var = Some("APP_PORT".to_string());
    let cmd = command_with_args(vec![a]);
    let lines = option_lines(&build_env(&cmd));
    assert_eq!(
        lookup(&lines[0], "details-env").unwrap(),
        ("\n    * *Environment*: `APP_PORT`".to_string(), true)
    );
}

#[test]
fn undocumented_positionals_contribute_nothing() {
    let mut bare = ArgModel::new();
    bare.positional = true;
    let cmd = command_with_args(vec![bare]);
    let env = build_env(&cmd);
    assert_eq!(env.lookup(&chars("positional-args")).unwrap().0, "");
    assert_eq!(env.subs_of(&chars("positional-lines")).len(), 0);
}

#[test]
fn optional_positional_is_bracketed_in_the_usage_fragment() {
    let mut file = ArgModel::new();
    file.positional = true;
    file.value_names = vec!["FILE".to_string()];
    let cmd = command_with_args(vec![file]);
    let env = build_env(&cmd);
    assert_eq!(env.lookup(&chars("positional-args")).unwrap().0, " [FILE]");
    let lines = env.subs_of(&chars("positional-lines"));
    assert_eq!(lines.len(), 1);
    assert_eq!(lookup(&lines[0], "key").unwrap().0, "FILE");
}

#[test]
fn required_and_rest_positionals_render_their_markers() {
    let mut req = ArgModel::new();
    req.positional = true;
    req.required = true;
    req.value_names = vec!["SRC".to_string()];
    let mut rest = ArgModel::new();
    rest.positional = true;
    rest.rest = true;
    rest.value_names = vec!["ARGS".to_string()];
    let cmd = command_with_args(vec![req, rest]);
    let env = build_env(&cmd);
    assert_eq!(
        env.lookup(&chars("positional-args")).unwrap().0,
        " SRC [-- ARGS]"
    );
}

#[test]
fn subcommands_get_one_line_each() {
    let mut cmd = CommandModel::new("prog".to_string());
    cmd.subcommands = vec![
        SubcommandModel { name: "add".to_string(), about: Some("adds".to_string()) },
        SubcommandModel { name: "rm".to_string(), about: None },
    ];
    let env = build_env(&cmd);
    let lines = env.subs_of(&chars("subcommand-lines"));
    assert_eq!(lines.len(), 2);
    assert_eq!(lookup(&lines[0], "sub-name").unwrap().0, "add");
    assert_eq!(lookup(&lines[0], "sub-about").unwrap(), ("adds".to_string(), true));
    assert_eq!(lookup(&lines[1], "sub-name").unwrap().0, "rm");
    assert!(lookup(&lines[1], "sub-about").is_none());
}
