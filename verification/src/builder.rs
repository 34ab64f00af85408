//! The variable model builder: from a command description to the variable
//! environment the templates are expanded against.
//!
//! Scalars: `name`, and `author` / `version` / `about` / `after_help` when
//! present, plus the `positional-args` usage fragment. Groups: one
//! `option-lines` sub-environment per visible flag argument, one
//! `positional-lines` sub-environment per documented positional, one
//! `subcommand-lines` sub-environment per subcommand.

use vstd::prelude::*;

use crate::env::EnvV;
use crate::env::SubEnv;
use crate::env::TextVal;
use crate::env::VarEnv;
use crate::env::lemma_group_lookup_none;
use crate::env::lemma_lookup_concat;
use crate::env::spec_lookup;
use crate::env::lemma_lookup_group_snoc;
use crate::env::spec_group_names_among;
use crate::env::spec_group_subs;
use crate::env::spec_lookup_group;
use crate::model::ArgKind;
use crate::model::ArgModel;
use crate::model::CommandModel;
use crate::model::SubcommandModel;
use crate::model::spec_takes_values;
use crate::text::push_str_chars;
use crate::text::string_from_chars;

verus! {

/// A plain (non-markdown) text value.
pub open spec fn plain(t: Seq<char>) -> TextVal {
    TextVal { text: t, markdown: false }
}

/// A markdown-styled text value.
pub open spec fn mdv(t: Seq<char>) -> TextVal {
    TextVal { text: t, markdown: true }
}

/// The display name of the command: the binary name when declared, else
/// the command name.
pub open spec fn spec_cmd_name(cmd: CommandModel) -> Seq<char> {
    if cmd.bin_name is Some {
        cmd.bin_name->0@
    } else {
        cmd.name@
    }
}

/// The compact flags column: `-s, --long`, `    --long` (aligned under
/// short+long rows), `-s`, or empty.
pub open spec fn spec_flags_compact(a: ArgModel) -> Seq<char> {
    if a.short is Some && a.long is Some {
        "-"@ + seq![a.short->0] + ", --"@ + a.long->0@
    } else if a.short is Some {
        "-"@ + seq![a.short->0]
    } else if a.long is Some {
        "    --"@ + a.long->0@
    } else {
        Seq::empty()
    }
}

/// A short flag rendered as `-s`.
pub open spec fn spec_short_flag(c: char) -> Seq<char> {
    "-"@ + seq![c]
}

/// A long flag rendered as `--long`.
pub open spec fn spec_long_flag(l: Seq<char>) -> Seq<char> {
    "--"@ + l
}

/// A value name rendered as `<name>`.
pub open spec fn spec_braced(n: Seq<char>) -> Seq<char> {
    "<"@ + n + ">"@
}

/// Values back-tick-quoted and comma-joined, from position `k` on:
/// `` `a`, `b` ``.
pub open spec fn spec_backtick_join(vals: Seq<Seq<char>>, k: int) -> Seq<char>
    decreases vals.len() - k, when 0 <= k
{
    if k >= vals.len() {
        Seq::empty()
    } else {
        (if k > 0 {
            ", "@
        } else {
            Seq::empty()
        }) + "`"@ + vals[k] + "`"@ + spec_backtick_join(vals, k + 1)
    }
}

/// The inline possible-values annotation.
pub open spec fn spec_possible_inline(vals: Seq<Seq<char>>) -> Seq<char> {
    " Possible values: ["@ + spec_backtick_join(vals, 0) + "]"@
}

/// The block-style possible-values annotation.
pub open spec fn spec_possible_details(vals: Seq<Seq<char>>) -> Seq<char> {
    "\n    * *Possible values*: "@ + spec_backtick_join(vals, 0)
}

/// The inline default-value annotation.
pub open spec fn spec_default_inline(d: Seq<char>) -> Seq<char> {
    " Default: `"@ + d + "`"@
}

/// The block-style default-value annotation.
pub open spec fn spec_default_details(d: Seq<char>) -> Seq<char> {
    "\n    * *Default*: `"@ + d + "`"@
}

/// The block-style environment-variable annotation.
pub open spec fn spec_env_details(e: Seq<char>) -> Seq<char> {
    "\n    * *Environment*: `"@ + e + "`"@
}

/// Whether an argument appears in the options table: not hidden, and
/// carrying at least one flag.
pub open spec fn spec_visible_option(a: ArgModel) -> bool {
    !a.hidden && (a.short is Some || a.long is Some)
}

/// Whether the default-value annotations apply: a first default value is
/// declared and the argument stores or appends values (boolean flags
/// suppress their default).
pub open spec fn spec_shows_default(a: ArgModel) -> bool {
    a.default_values.len() > 0 && (a.kind == ArgKind::StoreValue || a.kind == ArgKind::AppendValues)
}

/// The default-annotation bindings of one option: present exactly when
/// the default is shown.
pub open spec fn spec_default_entries(a: ArgModel) -> Seq<(Seq<char>, TextVal)> {
    if spec_shows_default(a) {
        seq![
            ("default"@, mdv(spec_default_inline(a.default_values[0]@))),
            ("details-default"@, mdv(spec_default_details(a.default_values[0]@))),
        ]
    } else {
        Seq::empty()
    }
}

/// The value-name bindings of one option.
pub open spec fn spec_value_entries(a: ArgModel) -> Seq<(Seq<char>, TextVal)> {
    if spec_takes_values(a.kind) && a.value_names.len() > 0 {
        let vn = a.value_names[0]@;
        seq![("value"@, plain(vn)), ("value-braced"@, plain(spec_braced(vn)))] + (if a.short
            is Some {
            seq![
                ("value-short-braced"@, plain(spec_braced(vn))),
                ("value-short"@, plain(vn)),
            ]
        } else {
            Seq::empty()
        }) + (if a.long is Some {
            seq![
                ("value-long-braced"@, plain(spec_braced(vn))),
                ("value-long"@, plain(vn)),
            ]
        } else {
            Seq::empty()
        })
    } else {
        Seq::empty()
    }
}

/// The sub-environment of one option row.
pub open spec fn spec_option_sub(a: ArgModel) -> Seq<(Seq<char>, TextVal)> {
    seq![("flags-compact"@, plain(spec_flags_compact(a)))] + (if a.short is Some {
        seq![("short"@, plain(spec_short_flag(a.short->0)))]
    } else {
        Seq::empty()
    }) + (if a.long is Some {
        seq![("long"@, plain(spec_long_flag(a.long->0@)))]
    } else {
        Seq::empty()
    }) + (if a.help is Some {
        seq![("help"@, mdv(a.help->0@))]
    } else {
        Seq::empty()
    }) + spec_value_entries(a) + (if a.env_var is Some {
        seq![("details-env"@, mdv(spec_env_details(a.env_var->0@)))]
    } else {
        Seq::empty()
    }) + (if a.possible_values.len() > 0 {
        let vals = a.possible_values@.map_values(|s: String| s@);
        seq![
            ("possible_values"@, mdv(spec_possible_inline(vals))),
            ("details-possible-values"@, mdv(spec_possible_details(vals))),
        ]
    } else {
        Seq::empty()
    }) + spec_default_entries(a)
}

/// The option-lines sub-environments, from argument `k` on.
pub open spec fn spec_option_subs(args: Seq<ArgModel>, k: int) -> Seq<Seq<(Seq<char>, TextVal)>>
    decreases args.len() - k, when 0 <= k
{
    if k >= args.len() {
        Seq::empty()
    } else {
        (if spec_visible_option(args[k]) {
            seq![spec_option_sub(args[k])]
        } else {
            Seq::empty()
        }) + spec_option_subs(args, k + 1)
    }
}

/// Whether a positional argument appears in generated help: it declares a
/// value name.
pub open spec fn spec_documented_positional(a: ArgModel) -> bool {
    a.positional && a.value_names.len() > 0
}

/// The usage fragment one documented positional contributes:
/// `" [-- NAME]"` with the brackets only when not required and the `--`
/// marker only for a rest-collector.
pub open spec fn spec_positional_fragment(a: ArgModel) -> Seq<char> {
    " "@ + (if !a.required {
        "["@
    } else {
        Seq::empty()
    }) + (if a.rest {
        "-- "@
    } else {
        Seq::empty()
    }) + a.value_names[0]@ + (if !a.required {
        "]"@
    } else {
        Seq::empty()
    })
}

/// The whole usage fragment, from argument `k` on; undocumented
/// positionals contribute nothing.
pub open spec fn spec_positional_args(args: Seq<ArgModel>, k: int) -> Seq<char>
    decreases args.len() - k, when 0 <= k
{
    if k >= args.len() {
        Seq::empty()
    } else {
        (if spec_documented_positional(args[k]) {
            spec_positional_fragment(args[k])
        } else {
            Seq::empty()
        }) + spec_positional_args(args, k + 1)
    }
}

/// The sub-environment of one positional line: its key and, when present,
/// its help text (inserted as plain text).
pub open spec fn spec_positional_sub(a: ArgModel) -> Seq<(Seq<char>, TextVal)> {
    seq![("key"@, plain(a.value_names[0]@))] + (if a.help is Some {
        seq![("help"@, plain(a.help->0@))]
    } else {
        Seq::empty()
    })
}

/// The positional-lines sub-environments, from argument `k` on.
pub open spec fn spec_positional_subs(args: Seq<ArgModel>, k: int) -> Seq<
    Seq<(Seq<char>, TextVal)>,
>
    decreases args.len() - k, when 0 <= k
{
    if k >= args.len() {
        Seq::empty()
    } else {
        (if spec_documented_positional(args[k]) {
            seq![spec_positional_sub(args[k])]
        } else {
            Seq::empty()
        }) + spec_positional_subs(args, k + 1)
    }
}

/// The sub-environment of one subcommand line.
pub open spec fn spec_subcommand_sub(s: SubcommandModel) -> Seq<(Seq<char>, TextVal)> {
    seq![("sub-name"@, plain(s.name@))] + (if s.about is Some {
        seq![("sub-about"@, mdv(s.about->0@))]
    } else {
        Seq::empty()
    })
}

/// The subcommand-lines sub-environments, from subcommand `k` on.
pub open spec fn spec_subcommand_subs(subs: Seq<SubcommandModel>, k: int) -> Seq<
    Seq<(Seq<char>, TextVal)>,
>
    decreases subs.len() - k, when 0 <= k
{
    if k >= subs.len() {
        Seq::empty()
    } else {
        seq![spec_subcommand_sub(subs[k])] + spec_subcommand_subs(subs, k + 1)
    }
}

/// The scalar bindings of the environment, in binding order.
pub open spec fn spec_build_vars(cmd: CommandModel) -> Seq<(Seq<char>, TextVal)> {
    seq![("name"@, plain(spec_cmd_name(cmd)))] + (if cmd.author is Some {
        seq![("author"@, plain(cmd.author->0@))]
    } else {
        Seq::empty()
    }) + (if cmd.version is Some {
        seq![("version"@, plain(cmd.version->0@))]
    } else {
        Seq::empty()
    }) + (if cmd.about is Some {
        seq![("about"@, mdv(cmd.about->0@))]
    } else {
        Seq::empty()
    }) + (if cmd.after_help is Some {
        seq![("after_help"@, mdv(cmd.after_help->0@))]
    } else {
        Seq::empty()
    }) + seq![("positional-args"@, plain(spec_positional_args(cmd.args@, 0)))]
}

/// The compact flags column of one argument.
fn flags_compact_str(a: &ArgModel) -> (r: String)
    ensures
        r@ == spec_flags_compact(*a),
{
    let mut out: Vec<char> = Vec::new();
    if let Some(c) = a.short {
        push_str_chars(&mut out, "-");
        out.push(c);
        if let Some(l) = &a.long {
            push_str_chars(&mut out, ", --");
            push_str_chars(&mut out, l.as_str());
        }
    } else if let Some(l) = &a.long {
        push_str_chars(&mut out, "    --");
        push_str_chars(&mut out, l.as_str());
    }
    proof {
        assert(out@ =~= spec_flags_compact(*a));
    }
    string_from_chars(&out)
}

/// `-s` for a short flag.
fn short_flag_str(c: char) -> (r: String)
    ensures
        r@ == spec_short_flag(c),
{
    let mut out: Vec<char> = Vec::new();
    push_str_chars(&mut out, "-");
    out.push(c);
    proof {
        assert(out@ =~= spec_short_flag(c));
    }
    string_from_chars(&out)
}

/// `--long` for a long flag.
fn long_flag_str(l: &String) -> (r: String)
    ensures
        r@ == spec_long_flag(l@),
{
    let mut out: Vec<char> = Vec::new();
    push_str_chars(&mut out, "--");
    push_str_chars(&mut out, l.as_str());
    proof {
        assert(out@ =~= spec_long_flag(l@));
    }
    string_from_chars(&out)
}

/// `<name>` for a value name.
fn braced_str(n: &String) -> (r: String)
    ensures
        r@ == spec_braced(n@),
{
    let mut out: Vec<char> = Vec::new();
    push_str_chars(&mut out, "<");
    push_str_chars(&mut out, n.as_str());
    push_str_chars(&mut out, ">");
    proof {
        assert(out@ =~= spec_braced(n@));
    }
    string_from_chars(&out)
}

/// Append the back-tick-quoted, comma-joined values.
fn push_backtick_join(out: &mut Vec<char>, vals: &Vec<String>)
    ensures
        final(out)@ == old(out)@ + spec_backtick_join(vals@.map_values(|s: String| s@), 0),
{
    let ghost vs = vals@.map_values(|s: String| s@);
    let mut k: usize = 0;
    while k < vals.len()
        invariant
            k <= vals@.len(),
            vs == vals@.map_values(|s: String| s@),
            out@ + spec_backtick_join(vs, k as int) == old(out)@ + spec_backtick_join(vs, 0),
        decreases vals@.len() - k,
    {
        let ghost before = out@;
        if k > 0 {
            push_str_chars(out, ", ");
        }
        push_str_chars(out, "`");
        push_str_chars(out, vals[k].as_str());
        push_str_chars(out, "`");
        proof {
            assert(vs[k as int] == vals@[k as int]@);
            assert(out@ =~= before + ((if k > 0 {
                ", "@
            } else {
                Seq::<char>::empty()
            }) + "`"@ + vs[k as int] + "`"@));
            assert(out@ + spec_backtick_join(vs, k + 1) =~= before + spec_backtick_join(
                vs,
                k as int,
            ));
        }
        k = k + 1;
    }
    proof {
        assert(out@ + spec_backtick_join(vs, k as int) =~= out@);
    }
}

/// ` Possible values: [...]` for the inline annotation.
fn possible_inline_str(vals: &Vec<String>) -> (r: String)
    ensures
        r@ == spec_possible_inline(vals@.map_values(|s: String| s@)),
{
    let mut out: Vec<char> = Vec::new();
    push_str_chars(&mut out, " Possible values: [");
    push_backtick_join(&mut out, vals);
    push_str_chars(&mut out, "]");
    proof {
        assert(out@ =~= spec_possible_inline(vals@.map_values(|s: String| s@)));
    }
    string_from_chars(&out)
}

/// The block-style possible-values annotation.
fn possible_details_str(vals: &Vec<String>) -> (r: String)
    ensures
        r@ == spec_possible_details(vals@.map_values(|s: String| s@)),
{
    let mut out: Vec<char> = Vec::new();
    push_str_chars(&mut out, "\n    * *Possible values*: ");
    push_backtick_join(&mut out, vals);
    proof {
        assert(out@ =~= spec_possible_details(vals@.map_values(|s: String| s@)));
    }
    string_from_chars(&out)
}

/// ` Default: `...`` for the inline annotation.
fn default_inline_str(d: &String) -> (r: String)
    ensures
        r@ == spec_default_inline(d@),
{
    let mut out: Vec<char> = Vec::new();
    push_str_chars(&mut out, " Default: `");
    push_str_chars(&mut out, d.as_str());
    push_str_chars(&mut out, "`");
    proof {
        assert(out@ =~= spec_default_inline(d@));
    }
    string_from_chars(&out)
}

/// The block-style default-value annotation.
fn default_details_str(d: &String) -> (r: String)
    ensures
        r@ == spec_default_details(d@),
{
    let mut out: Vec<char> = Vec::new();
    push_str_chars(&mut out, "\n    * *Default*: `");
    push_str_chars(&mut out, d.as_str());
    push_str_chars(&mut out, "`");
    proof {
        assert(out@ =~= spec_default_details(d@));
    }
    string_from_chars(&out)
}

/// The block-style environment-variable annotation.
fn env_details_str(e: &String) -> (r: String)
    ensures
        r@ == spec_env_details(e@),
{
    let mut out: Vec<char> = Vec::new();
    push_str_chars(&mut out, "\n    * *Environment*: `");
    push_str_chars(&mut out, e.as_str());
    push_str_chars(&mut out, "`");
    proof {
        assert(out@ =~= spec_env_details(e@));
    }
    string_from_chars(&out)
}

/// Build the sub-environment of one option row.
#[verifier::rlimit(100)]
fn build_option_sub(a: &ArgModel) -> (r: SubEnv)
    requires
        spec_visible_option(*a),
    ensures
        r@ == spec_option_sub(*a),
{
    let mut sub = SubEnv::new();
    sub.set("flags-compact", flags_compact_str(a));
    if let Some(c) = a.short {
        sub.set("short", short_flag_str(c));
    }
    if let Some(l) = &a.long {
        sub.set("long", long_flag_str(l));
    }
    if let Some(h) = &a.help {
        sub.set_md("help", h.clone());
    }
    let takes = match a.kind {
        ArgKind::StoreValue => true,
        ArgKind::AppendValues => true,
        ArgKind::Flag => false,
    };
    if takes && a.value_names.len() > 0 {
        let vn = &a.value_names[0];
        sub.set("value", vn.clone());
        sub.set("value-braced", braced_str(vn));
        if a.short.is_some() {
            sub.set("value-short-braced", braced_str(vn));
            sub.set("value-short", vn.clone());
        }
        if a.long.is_some() {
            sub.set("value-long-braced", braced_str(vn));
            sub.set("value-long", vn.clone());
        }
    }
    if let Some(e) = &a.env_var {
        sub.set_md("details-env", env_details_str(e));
    }
    if a.possible_values.len() > 0 {
        sub.set_md("possible_values", possible_inline_str(&a.possible_values));
        sub.set_md("details-possible-values", possible_details_str(&a.possible_values));
    }
    if a.default_values.len() > 0 {
        let shows = match a.kind {
            ArgKind::StoreValue => true,
            ArgKind::AppendValues => true,
            ArgKind::Flag => false,
        };
        if shows {
            let d = &a.default_values[0];
            sub.set_md("default", default_inline_str(d));
            sub.set_md("details-default", default_details_str(d));
        }
    }
    proof {
        assert(sub@ =~= spec_option_sub(*a));
    }
    sub
}

/// Append one documented positional's usage fragment.
fn push_positional_fragment(out: &mut Vec<char>, a: &ArgModel)
    requires
        spec_documented_positional(*a),
    ensures
        final(out)@ == old(out)@ + spec_positional_fragment(*a),
{
    push_str_chars(out, " ");
    if !a.required {
        push_str_chars(out, "[");
    }
    if a.rest {
        push_str_chars(out, "-- ");
    }
    push_str_chars(out, a.value_names[0].as_str());
    if !a.required {
        push_str_chars(out, "]");
    }
    proof {
        assert(out@ =~= old(out)@ + spec_positional_fragment(*a));
    }
}

/// Build the sub-environment of one positional line.
fn build_positional_sub(a: &ArgModel) -> (r: SubEnv)
    requires
        spec_documented_positional(*a),
    ensures
        r@ == spec_positional_sub(*a),
{
    let mut sub = SubEnv::new();
    sub.set("key", a.value_names[0].clone());
    if let Some(h) = &a.help {
        sub.set("help", h.clone());
    }
    proof {
        assert(sub@ =~= spec_positional_sub(*a));
    }
    sub
}

/// Build the sub-environment of one subcommand line.
fn build_subcommand_sub(s: &SubcommandModel) -> (r: SubEnv)
    ensures
        r@ == spec_subcommand_sub(*s),
{
    let mut sub = SubEnv::new();
    sub.set("sub-name", s.name.clone());
    if let Some(ab) = &s.about {
        sub.set_md("sub-about", ab.clone());
    }
    proof {
        assert(sub@ =~= spec_subcommand_sub(*s));
    }
    sub
}

/// The three group names are pairwise distinct.
proof fn lemma_group_names_distinct()
    ensures
        "option-lines"@ != "positional-lines"@,
        "option-lines"@ != "subcommand-lines"@,
        "positional-lines"@ != "subcommand-lines"@,
{
    reveal_strlit("option-lines");
    reveal_strlit("positional-lines");
    reveal_strlit("subcommand-lines");
    assert("positional-lines"@[0] != "subcommand-lines"@[0]);
}

/// Build the variable environment of a command description.
///
/// Deterministic and free of side effects: one pass over the description.
#[verifier::rlimit(50)]
pub fn build_env(cmd: &CommandModel) -> (env: VarEnv)
    ensures
        env@.vars == spec_build_vars(*cmd),
        spec_group_subs(env@, "option-lines"@) == spec_option_subs(cmd.args@, 0),
        spec_group_subs(env@, "positional-lines"@) == spec_positional_subs(cmd.args@, 0),
        spec_group_subs(env@, "subcommand-lines"@) == spec_subcommand_subs(cmd.subcommands@, 0),
        forall|g: Seq<char>|
            g != "option-lines"@ && g != "positional-lines"@ && g != "subcommand-lines"@
                ==> #[trigger] spec_lookup_group(env@.groups, g) is None,
{
    proof {
        lemma_group_names_distinct();
    }
    let mut env = VarEnv::new();
    let name_s = match &cmd.bin_name {
        Some(b) => b.clone(),
        None => cmd.name.clone(),
    };
    env.set("name", name_s);
    if let Some(au) = &cmd.author {
        env.set("author", au.clone());
    }
    if let Some(v) = &cmd.version {
        env.set("version", v.clone());
    }
    if let Some(ab) = &cmd.about {
        env.set_md("about", ab.clone());
    }
    if let Some(ah) = &cmd.after_help {
        env.set_md("after_help", ah.clone());
    }
    let ghost vars_head = env@.vars;
    proof {
        assert(spec_build_vars(*cmd) =~= vars_head + seq![
            ("positional-args"@, plain(spec_positional_args(cmd.args@, 0))),
        ]);
    }
    // option-lines
    let mut i: usize = 0;
    while i < cmd.args.len()
        invariant
            i <= cmd.args@.len(),
            env@.vars == vars_head,
            spec_group_subs(env@, "option-lines"@) + spec_option_subs(cmd.args@, i as int)
                == spec_option_subs(cmd.args@, 0),
            spec_group_names_among(env@.groups, seq!["option-lines"@]),
        decreases cmd.args@.len() - i,
    {
        let a = &cmd.args[i];
        let visible = !a.hidden && (a.short.is_some() || a.long.is_some());
        if visible {
            let ghost before = spec_group_subs(env@, "option-lines"@);
            let ghost groups_before = env@.groups;
            let sub = build_option_sub(a);
            env.push_sub("option-lines", sub);
            proof {
                lemma_group_names_distinct();
                assert(spec_group_subs(env@, "option-lines"@) == before.push(
                    spec_option_sub(cmd.args@[i as int]),
                ));
                assert(before.push(spec_option_sub(cmd.args@[i as int])) + spec_option_subs(
                    cmd.args@,
                    i + 1,
                ) =~= before + (seq![spec_option_sub(cmd.args@[i as int])] + spec_option_subs(
                    cmd.args@,
                    i + 1,
                )));
                assert(env@.groups.drop_last() =~= groups_before);
                assert(env@.groups.last().0 == "option-lines"@);
                assert(seq!["option-lines"@][0] == "option-lines"@);
                assert forall|j: int| 0 <= j < env@.groups.len() implies seq![
                    "option-lines"@,
                ].contains(#[trigger] env@.groups[j].0) by {
                    if j < env@.groups.len() - 1 {
                        assert(env@.groups[j] == groups_before[j]);
                        assert(seq!["option-lines"@].contains(groups_before[j].0));
                    }
                }
            }
        }
        i = i + 1;
    }
    proof {
        assert(spec_group_subs(env@, "option-lines"@) + Seq::<
            Seq<(Seq<char>, TextVal)>,
        >::empty() =~= spec_group_subs(env@, "option-lines"@));
    }
    let ghost option_subs_done = spec_group_subs(env@, "option-lines"@);
    proof {
        lemma_group_names_distinct();
        assert forall|j: int| 0 <= j < env@.groups.len() implies seq![
            "option-lines"@,
            "positional-lines"@,
        ].contains(#[trigger] env@.groups[j].0) by {
            assert(seq!["option-lines"@].contains(env@.groups[j].0));
            assert(env@.groups[j].0 == "option-lines"@);
            assert(seq!["option-lines"@, "positional-lines"@][0] == "option-lines"@);
        }
        assert(!seq!["option-lines"@].contains("positional-lines"@));
        lemma_group_lookup_none(env@.groups, seq!["option-lines"@], "positional-lines"@);
        assert(spec_group_subs(env@, "positional-lines"@) + spec_positional_subs(cmd.args@, 0)
            =~= spec_positional_subs(cmd.args@, 0));
    }
    // positional-lines and the usage fragment
    let mut args_chars: Vec<char> = Vec::new();
    let mut p: usize = 0;
    while p < cmd.args.len()
        invariant
            p <= cmd.args@.len(),
            env@.vars == vars_head,
            option_subs_done == spec_option_subs(cmd.args@, 0),
            spec_group_subs(env@, "option-lines"@) == option_subs_done,
            args_chars@ + spec_positional_args(cmd.args@, p as int) == spec_positional_args(
                cmd.args@,
                0,
            ),
            spec_group_subs(env@, "positional-lines"@) + spec_positional_subs(
                cmd.args@,
                p as int,
            ) == spec_positional_subs(cmd.args@, 0),
            spec_group_names_among(env@.groups, seq!["option-lines"@, "positional-lines"@]),
        decreases cmd.args@.len() - p,
    {
        let a = &cmd.args[p];
        let documented = a.positional && a.value_names.len() > 0;
        if documented {
            let ghost before = spec_group_subs(env@, "positional-lines"@);
            let ghost groups_before = env@.groups;
            let ghost chars_before = args_chars@;
            push_positional_fragment(&mut args_chars, a);
            let sub = build_positional_sub(a);
            env.push_sub("positional-lines", sub);
            proof {
                lemma_group_names_distinct();
                assert(spec_group_subs(env@, "positional-lines"@) == before.push(
                    spec_positional_sub(cmd.args@[p as int]),
                ));
                assert(before.push(spec_positional_sub(cmd.args@[p as int]))
                    + spec_positional_subs(cmd.args@, p + 1) =~= before + (seq![
                    spec_positional_sub(cmd.args@[p as int]),
                ] + spec_positional_subs(cmd.args@, p + 1)));
                assert(args_chars@ + spec_positional_args(cmd.args@, p + 1) =~= chars_before + (
                spec_positional_fragment(cmd.args@[p as int]) + spec_positional_args(
                    cmd.args@,
                    p + 1,
                )));
                assert(env@.groups.drop_last() =~= groups_before);
                assert(env@.groups.last().0 == "positional-lines"@);
                lemma_lookup_group_snoc(env@.groups, groups_before, "option-lines"@);
                assert(seq!["option-lines"@, "positional-lines"@][1] == "positional-lines"@);
                assert forall|j: int| 0 <= j < env@.groups.len() implies seq![
                    "option-lines"@,
                    "positional-lines"@,
                ].contains(#[trigger] env@.groups[j].0) by {
                    if j < env@.groups.len() - 1 {
                        assert(env@.groups[j] == groups_before[j]);
                        assert(seq!["option-lines"@, "positional-lines"@].contains(
                            groups_before[j].0,
                        ));
                    }
                }
            }
        }
        p = p + 1;
    }
    proof {
        assert(args_chars@ + Seq::<char>::empty() =~= args_chars@);
        assert(spec_group_subs(env@, "positional-lines"@) + Seq::<
            Seq<(Seq<char>, TextVal)>,
        >::empty() =~= spec_group_subs(env@, "positional-lines"@));
    }
    let ghost positional_subs_done = spec_group_subs(env@, "positional-lines"@);
    proof {
        lemma_group_names_distinct();
        assert(!seq!["option-lines"@, "positional-lines"@].contains("subcommand-lines"@));
        lemma_group_lookup_none(
            env@.groups,
            seq!["option-lines"@, "positional-lines"@],
            "subcommand-lines"@,
        );
        assert forall|j: int| 0 <= j < env@.groups.len() implies seq![
            "option-lines"@,
            "positional-lines"@,
            "subcommand-lines"@,
        ].contains(#[trigger] env@.groups[j].0) by {
            assert(seq!["option-lines"@, "positional-lines"@].contains(env@.groups[j].0));
            assert(env@.groups[j].0 == "option-lines"@ || env@.groups[j].0
                == "positional-lines"@);
            assert(seq!["option-lines"@, "positional-lines"@, "subcommand-lines"@][0]
                == "option-lines"@);
            assert(seq!["option-lines"@, "positional-lines"@, "subcommand-lines"@][1]
                == "positional-lines"@);
        }
    }
    env.set("positional-args", string_from_chars(&args_chars));
    proof {
        assert(env@.vars =~= spec_build_vars(*cmd));
        assert(spec_group_subs(env@, "subcommand-lines"@) + spec_subcommand_subs(
            cmd.subcommands@,
            0,
        ) =~= spec_subcommand_subs(cmd.subcommands@, 0));
    }
    let ghost vars_done = env@.vars;
    // subcommand-lines
    let mut s: usize = 0;
    while s < cmd.subcommands.len()
        invariant
            s <= cmd.subcommands@.len(),
            env@.vars == vars_done,
            vars_done == spec_build_vars(*cmd),
            option_subs_done == spec_option_subs(cmd.args@, 0),
            positional_subs_done == spec_positional_subs(cmd.args@, 0),
            spec_group_subs(env@, "option-lines"@) == option_subs_done,
            spec_group_subs(env@, "positional-lines"@) == positional_subs_done,
            spec_group_subs(env@, "subcommand-lines"@) + spec_subcommand_subs(
                cmd.subcommands@,
                s as int,
            ) == spec_subcommand_subs(cmd.subcommands@, 0),
            spec_group_names_among(
                env@.groups,
                seq!["option-lines"@, "positional-lines"@, "subcommand-lines"@],
            ),
        decreases cmd.subcommands@.len() - s,
    {
        let sc = &cmd.subcommands[s];
        let ghost before = spec_group_subs(env@, "subcommand-lines"@);
        let ghost groups_before = env@.groups;
        let sub = build_subcommand_sub(sc);
        env.push_sub("subcommand-lines", sub);
        proof {
            lemma_group_names_distinct();
            assert(spec_group_subs(env@, "subcommand-lines"@) == before.push(
                spec_subcommand_sub(cmd.subcommands@[s as int]),
            ));
            assert(before.push(spec_subcommand_sub(cmd.subcommands@[s as int]))
                + spec_subcommand_subs(cmd.subcommands@, s + 1) =~= before + (seq![
                spec_subcommand_sub(cmd.subcommands@[s as int]),
            ] + spec_subcommand_subs(cmd.subcommands@, s + 1)));
            assert(env@.groups.drop_last() =~= groups_before);
            assert(env@.groups.last().0 == "subcommand-lines"@);
            lemma_lookup_group_snoc(env@.groups, groups_before, "option-lines"@);
            lemma_lookup_group_snoc(env@.groups, groups_before, "positional-lines"@);
            assert(seq!["option-lines"@, "positional-lines"@, "subcommand-lines"@][2]
                == "subcommand-lines"@);
            assert forall|j: int| 0 <= j < env@.groups.len() implies seq![
                "option-lines"@,
                "positional-lines"@,
                "subcommand-lines"@,
            ].contains(#[trigger] env@.groups[j].0) by {
                if j < env@.groups.len() - 1 {
                    assert(env@.groups[j] == groups_before[j]);
                    assert(seq!["option-lines"@, "positional-lines"@, "subcommand-lines"@].contains(
                        groups_before[j].0,
                    ));
                }
            }
        }
        s = s + 1;
    }
    proof {
        assert(spec_group_subs(env@, "subcommand-lines"@) + Seq::<
            Seq<(Seq<char>, TextVal)>,
        >::empty() =~= spec_group_subs(env@, "subcommand-lines"@));
        assert forall|g: Seq<char>|
            g != "option-lines"@ && g != "positional-lines"@ && g != "subcommand-lines"@ implies #[trigger] spec_lookup_group(
            env@.groups,
            g,
        ) is None by {
            lemma_group_lookup_none(
                env@.groups,
                seq!["option-lines"@, "positional-lines"@, "subcommand-lines"@],
                g,
            );
        }
    }
    env
}


/// The four forms of the compact flags column, one per combination of
/// declared flags.
pub proof fn lemma_flags_compact_forms(a: ArgModel)
    ensures
        (a.short is Some && a.long is Some) ==> spec_flags_compact(a) == "-"@ + seq![a.short->0]
            + ", --"@ + a.long->0@,
        (a.short is Some && a.long is None) ==> spec_flags_compact(a) == "-"@ + seq![a.short->0],
        (a.short is None && a.long is Some) ==> spec_flags_compact(a) == "    --"@ + a.long->0@,
        (a.short is None && a.long is None) ==> spec_flags_compact(a) == Seq::<char>::empty(),
{
}

/// A positional argument without a declared value name contributes
/// nothing: neither to the usage fragment nor a positional line.
pub proof fn lemma_undocumented_positional_skipped(args: Seq<ArgModel>, k: int)
    requires
        0 <= k < args.len(),
        args[k].value_names.len() == 0,
    ensures
        spec_positional_args(args, k) == spec_positional_args(args, k + 1),
        spec_positional_subs(args, k) == spec_positional_subs(args, k + 1),
{
    assert(Seq::<char>::empty() + spec_positional_args(args, k + 1) =~= spec_positional_args(
        args,
        k + 1,
    ));
    assert(Seq::<Seq<(Seq<char>, TextVal)>>::empty() + spec_positional_subs(args, k + 1)
        =~= spec_positional_subs(args, k + 1));
}

/// Reveal the option-row variable names and how they differ from the two
/// default-annotation names.
proof fn reveal_option_var_names()
    ensures
        "default"@ != "flags-compact"@,
        "default"@ != "short"@,
        "default"@ != "long"@,
        "default"@ != "help"@,
        "default"@ != "value"@,
        "default"@ != "value-braced"@,
        "default"@ != "value-short-braced"@,
        "default"@ != "value-short"@,
        "default"@ != "value-long-braced"@,
        "default"@ != "value-long"@,
        "default"@ != "details-env"@,
        "default"@ != "possible_values"@,
        "default"@ != "details-possible-values"@,
        "default"@ != "details-default"@,
        "details-default"@ != "flags-compact"@,
        "details-default"@ != "short"@,
        "details-default"@ != "long"@,
        "details-default"@ != "help"@,
        "details-default"@ != "value"@,
        "details-default"@ != "value-braced"@,
        "details-default"@ != "value-short-braced"@,
        "details-default"@ != "value-short"@,
        "details-default"@ != "value-long-braced"@,
        "details-default"@ != "value-long"@,
        "details-default"@ != "details-env"@,
        "details-default"@ != "possible_values"@,
        "details-default"@ != "details-possible-values"@,
{
    reveal_strlit("default");
    reveal_strlit("details-default");
    reveal_strlit("flags-compact");
    reveal_strlit("short");
    reveal_strlit("long");
    reveal_strlit("help");
    reveal_strlit("value");
    reveal_strlit("value-braced");
    reveal_strlit("value-short-braced");
    reveal_strlit("value-short");
    reveal_strlit("value-long-braced");
    reveal_strlit("value-long");
    reveal_strlit("details-env");
    reveal_strlit("possible_values");
    reveal_strlit("details-possible-values");
    assert("default"@.len() == 7);
    assert("details-default"@.len() == 15);
    assert("flags-compact"@.len() == 13);
    assert("short"@.len() == 5);
    assert("long"@.len() == 4);
    assert("help"@.len() == 4);
    assert("value"@.len() == 5);
    assert("value-braced"@.len() == 12);
    assert("value-short-braced"@.len() == 18);
    assert("value-short"@.len() == 11);
    assert("value-long-braced"@.len() == 17);
    assert("value-long"@.len() == 10);
    assert("details-env"@.len() == 11);
    assert("possible_values"@.len() == 15);
    assert("details-possible-values"@.len() == 23);
    assert("details-default"@[0] != "possible_values"@[0]);
}

/// In an option row, only the default-annotation block can bind a
/// default-annotation name.
proof fn lemma_option_sub_default_block_decides(a: ArgModel, n: Seq<char>)
    requires
        n == "default"@ || n == "details-default"@,
    ensures
        spec_lookup(spec_option_sub(a), n) == spec_lookup(spec_default_entries(a), n),
{
    reveal_option_var_names();
    let b1 = seq![("flags-compact"@, plain(spec_flags_compact(a)))];
    let b2 = if a.short is Some {
        seq![("short"@, plain(spec_short_flag(a.short->0)))]
    } else {
        Seq::empty()
    };
    let b3 = if a.long is Some {
        seq![("long"@, plain(spec_long_flag(a.long->0@)))]
    } else {
        Seq::empty()
    };
    let b4 = if a.help is Some {
        seq![("help"@, mdv(a.help->0@))]
    } else {
        Seq::empty()
    };
    let b5 = spec_value_entries(a);
    let b6 = if a.env_var is Some {
        seq![("details-env"@, mdv(spec_env_details(a.env_var->0@)))]
    } else {
        Seq::empty()
    };
    let b7 = if a.possible_values.len() > 0 {
        let vals = a.possible_values@.map_values(|s: String| s@);
        seq![
            ("possible_values"@, mdv(spec_possible_inline(vals))),
            ("details-possible-values"@, mdv(spec_possible_details(vals))),
        ]
    } else {
        Seq::empty()
    };
    let b8 = spec_default_entries(a);
    assert(spec_option_sub(a) == b1 + b2 + b3 + b4 + b5 + b6 + b7 + b8);
    if b2.len() > 0 {
        assert(b2.drop_last() =~= Seq::<(Seq<char>, TextVal)>::empty());
    }
    if b3.len() > 0 {
        assert(b3.drop_last() =~= Seq::<(Seq<char>, TextVal)>::empty());
    }
    if b4.len() > 0 {
        assert(b4.drop_last() =~= Seq::<(Seq<char>, TextVal)>::empty());
    }
    lemma_value_entries_lookup_none(a, n);
    if b6.len() > 0 {
        assert(b6.drop_last() =~= Seq::<(Seq<char>, TextVal)>::empty());
    }
    if b7.len() > 0 {
        assert(b7.drop_last().drop_last() =~= Seq::<(Seq<char>, TextVal)>::empty());
        assert(b7.drop_last().last().0 == "possible_values"@);
        assert(spec_lookup(b7.drop_last(), n) is None);
    }
    assert(b1.drop_last() =~= Seq::<(Seq<char>, TextVal)>::empty());
    assert(spec_lookup(b1, n) is None);
    assert(spec_lookup(b2, n) is None);
    assert(spec_lookup(b3, n) is None);
    assert(spec_lookup(b4, n) is None);
    assert(spec_lookup(b5, n) is None);
    assert(spec_lookup(b6, n) is None);
    assert(spec_lookup(b7, n) is None);
    lemma_lookup_concat(b1, b2, n);
    lemma_lookup_concat(b1 + b2, b3, n);
    lemma_lookup_concat(b1 + b2 + b3, b4, n);
    lemma_lookup_concat(b1 + b2 + b3 + b4, b5, n);
    lemma_lookup_concat(b1 + b2 + b3 + b4 + b5, b6, n);
    lemma_lookup_concat(b1 + b2 + b3 + b4 + b5 + b6, b7, n);
    lemma_lookup_concat(b1 + b2 + b3 + b4 + b5 + b6 + b7, b8, n);
}

/// The value-name bindings never bind a default-annotation name.
proof fn lemma_value_entries_lookup_none(a: ArgModel, n: Seq<char>)
    requires
        n == "default"@ || n == "details-default"@,
    ensures
        spec_lookup(spec_value_entries(a), n) is None,
{
    reveal_option_var_names();
    let e = spec_value_entries(a);
    if spec_takes_values(a.kind) && a.value_names.len() > 0 {
        assert(forall|j: int| 0 <= j < e.len() ==> (#[trigger] e[j].0) != n);
        lemma_all_names_differ_lookup_none(e, n);
    }
}

/// A name no binding carries looks up to nothing.
proof fn lemma_all_names_differ_lookup_none(pairs: Seq<(Seq<char>, TextVal)>, n: Seq<char>)
    requires
        forall|j: int| 0 <= j < pairs.len() ==> (#[trigger] pairs[j].0) != n,
    ensures
        spec_lookup(pairs, n) is None,
    decreases pairs.len(),
{
    if pairs.len() > 0 {
        assert(pairs[pairs.len() - 1].0 != n);
        lemma_all_names_differ_lookup_none(pairs.drop_last(), n);
    }
}

/// Default suppression: a boolean flag never binds the default
/// annotations, whatever defaults it declares; a value-storing or
/// value-appending argument with a declared default binds both,
/// back-tick-quoted.
pub proof fn lemma_default_suppression(a: ArgModel)
    ensures
        a.kind == ArgKind::Flag ==> spec_lookup(spec_option_sub(a), "default"@) is None
            && spec_lookup(spec_option_sub(a), "details-default"@) is None,
        spec_shows_default(a) ==> spec_lookup(spec_option_sub(a), "default"@) == Some(
            mdv(spec_default_inline(a.default_values[0]@)),
        ) && spec_lookup(spec_option_sub(a), "details-default"@) == Some(
            mdv(spec_default_details(a.default_values[0]@)),
        ),
{
    reveal_option_var_names();
    lemma_option_sub_default_block_decides(a, "default"@);
    lemma_option_sub_default_block_decides(a, "details-default"@);
    if spec_shows_default(a) {
        let b8 = spec_default_entries(a);
        assert(b8.drop_last().drop_last() =~= Seq::<(Seq<char>, TextVal)>::empty());
        assert(b8.last().0 == "details-default"@);
        assert(b8.drop_last().last().0 == "default"@);
        assert(spec_lookup(b8.drop_last(), "default"@) == Some(b8.drop_last().last().1));
        assert(spec_lookup(b8, "default"@) == Some(mdv(spec_default_inline(
            a.default_values[0]@,
        ))));
        assert(spec_lookup(b8, "details-default"@) == Some(mdv(spec_default_details(
            a.default_values[0]@,
        ))));
    }
}

} // verus!
