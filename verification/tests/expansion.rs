use clap_help::env::SubEnv;
use clap_help::env::VarEnv;
use clap_help::expand::expand;

#[test]
fn scalar_reference_is_replaced() {
    let mut env = VarEnv::new();
    env.set("name", "prog".to_string());
    assert_eq!(expand("run ${name} now", &env), "run prog now");
}

#[test]
fn absent_variable_expands_to_empty_text() {
    let env = VarEnv::new();
    assert_eq!(expand("a${nothing}b", &env), "ab");
    assert_eq!(expand("${nothing}", &env), "");
}

#[test]
fn latest_binding_wins() {
    let mut env = VarEnv::new();
    env.set("v", "first".to_string());
    env.set("v", "second".to_string());
    assert_eq!(expand("${v}", &env), "second");
}

#[test]
fn expansion_is_pure() {
    let mut env = VarEnv::new();
    env.set("x", "1".to_string());
    let a = expand("${x} and ${y}", &env);
    let b = expand("${x} and ${y}", &env);
    assert_eq!(a, b);
}

#[test]
fn group_repeats_once_per_sub_environment() {
    let mut env = VarEnv::new();
    for name in ["a", "b", "c"] {
        let mut sub = SubEnv::new();
        sub.set("item", name.to_string());
        env.push_sub("rows", sub);
    }
    assert_eq!(expand("${rows\n* ${item}\n}", &env), "* a\n* b\n* c\n");
}

#[test]
fn absent_group_expands_to_zero_repetitions() {
    let env = VarEnv::new();
    assert_eq!(expand("head\n${rows\n* ${item}\n}tail", &env), "head\ntail");
}

#[test]
fn group_body_falls_back_to_outer_scalars() {
    let mut env = VarEnv::new();
    env.set("name", "prog".to_string());
    let mut sub = SubEnv::new();
    sub.set("item", "x".to_string());
    env.push_sub("rows", sub);
    assert_eq!(expand("${rows\n${name}:${item}\n}", &env), "prog:x\n");
}

#[test]
fn sub_environment_binding_shadows_outer() {
    let mut env = VarEnv::new();
    env.set("item", "outer".to_string());
    let mut sub = SubEnv::new();
    sub.set("item", "inner".to_string());
    env.push_sub("rows", sub);
    assert_eq!(expand("${rows\n${item}\n}", &env), "inner\n");
}

#[test]
fn unterminated_reference_is_kept_literally() {
    let mut env = VarEnv::new();
    env.set("name", "prog".to_string());
    assert_eq!(expand("a${name", &env), "a${name");
}

#[test]
fn unclosed_group_is_kept_literally() {
    let env = VarEnv::new();
    assert_eq!(expand("${rows\nbody", &env), "${rows\nbody");
}

#[test]
fn empty_template_expands_to_empty_text() {
    let env = VarEnv::new();
    assert_eq!(expand("", &env), "");
}

#[test]
fn plain_values_have_markdown_modifiers_escaped() {
    let mut env = VarEnv::new();
    env.set("v", "a*b`c|d~e".to_string());
    assert_eq!(expand("${v}", &env), "a\\*b\\`c\\|d\\~e");
}

#[test]
fn plain_values_inside_groups_are_escaped_too() {
    let mut env = VarEnv::new();
    let mut sub = SubEnv::new();
    sub.set("item", "x|y".to_string());
    env.push_sub("rows", sub);
    assert_eq!(expand("${rows\n${item}\n}", &env), "x\\|y\n");
}

#[test]
fn markdown_values_are_not_escaped() {
    let mut env = VarEnv::new();
    env.set_md("v", "a **bold** `code`".to_string());
    assert_eq!(expand("${v}", &env), "a **bold** `code`");
}

