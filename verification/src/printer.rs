//! The printer: a configurable object that renders a command's help.
//!
//! It owns the variable environment built from the command description, a
//! mutable ordered list of section keys, a key-to-template mapping, and a
//! terminal skin. Rendering either prints each section at full terminal
//! width, or measures every section and re-renders all of them at the
//! widest natural content width so the blocks align.

use std::io::Write;
use vstd::prelude::*;

use crate::builder::build_env;
use crate::builder::spec_build_vars;
use crate::builder::spec_option_subs;
use crate::builder::spec_positional_subs;
use crate::builder::spec_subcommand_subs;
use crate::env::EnvV;
use crate::env::VarEnv;
use crate::env::lemma_lookup_concat;
use crate::env::spec_group_subs;
use crate::env::spec_lookup;
use crate::expand::expand;
use crate::expand::spec_expand;
use crate::model::CommandModel;
use crate::skin::skin_default;
use crate::skin::skin_default_dark;
use crate::skin::skin_default_light;
use crate::templates::TEMPLATE_AUTHOR;
use crate::templates::TEMPLATE_DESCRIPTION;
use crate::templates::TEMPLATE_EXAMPLES;
use crate::templates::TEMPLATE_OPTIONS;
use crate::templates::TEMPLATE_POSITIONALS;
use crate::templates::TEMPLATE_SUBCOMMANDS;
use crate::templates::TEMPLATE_TITLE;
use crate::templates::TEMPLATE_USAGE;
use crate::templates::default_template_keys;
use crate::text::chars_eq_str;
use crate::text::chars_of;

verus! {

#[verifier::external_type_specification]
#[verifier::external_body]
pub struct ExFmtText<'k, 's>(termimad::FmtText<'k, 's>);

/// Relies on termimad's `FmtText::from`: parse markdown text and lay it
/// out for the given width.
#[verifier::external_body]
fn fmt_text_from<'k, 's>(
    skin: &'k termimad::MadSkin,
    md: &'s str,
    width: Option<usize>,
) -> termimad::FmtText<'k, 's> {
    termimad::FmtText::from(skin, md, width)
}

/// Relies on termimad's `FmtText::content_width`: the visible length of
/// the widest laid-out line.
#[verifier::external_body]
fn fmt_content_width<'k, 's>(t: &termimad::FmtText<'k, 's>) -> usize {
    t.content_width()
}

/// Relies on termimad's `FmtText::set_rendering_width`: set the width the
/// text will be rendered to.
#[verifier::external_body]
fn fmt_set_rendering_width<'k, 's>(t: &mut termimad::FmtText<'k, 's>, width: usize) {
    t.set_rendering_width(width);
}

/// Relies on termimad's `Display for FmtText`: write the styled text to
/// standard output.
#[verifier::external_body]
fn print_fmt_text<'k, 's>(t: &termimad::FmtText<'k, 's>) {
    let mut out = std::io::stdout();
    let _ = writeln!(out, "{}", t);
}

/// Relies on termimad's `terminal_size`: the terminal's size in
/// characters, or a built-in default when the query fails. The result
/// depends on the environment: nothing more is assumed of it.
#[verifier::external_body]
fn terminal_size_now() -> (u16, u16) {
    termimad::terminal_size()
}

/// The detected brightness class of the terminal's background.
#[derive(Debug, Clone, Copy, PartialEq, Eq, Structural)]
pub enum LumaClass {
    /// A light background.
    Light,
    /// A dark background.
    Dark,
    /// Unknown or in between.
    Other,
}

/// The spec-level image of the ordered key list.
pub open spec fn keys_view(keys: Seq<String>) -> Seq<Seq<char>> {
    keys.map_values(|k: String| k@)
}

/// The spec-level image of the key-to-template mapping.
pub open spec fn tpl_view(ts: Seq<(String, String)>) -> Seq<(Seq<char>, Seq<char>)> {
    ts.map_values(|p: (String, String)| (p.0@, p.1@))
}

/// The rendered sections, in order, from key `k` on: one expansion per
/// listed key that has a template; keys without a template are skipped.
pub open spec fn spec_sections(
    keys: Seq<Seq<char>>,
    ts: Seq<(Seq<char>, Seq<char>)>,
    env: EnvV,
    k: int,
) -> Seq<Seq<char>>
    decreases keys.len() - k, when 0 <= k
{
    if k >= keys.len() {
        Seq::empty()
    } else {
        (match spec_lookup(ts, keys[k]) {
            Some(t) => seq![spec_expand(t, env)],
            None => Seq::empty(),
        }) + spec_sections(keys, ts, env, k + 1)
    }
}

/// The mapping with every entry of one key removed.
pub open spec fn spec_tpl_remove(ts: Seq<(Seq<char>, Seq<char>)>, key: Seq<char>) -> Seq<
    (Seq<char>, Seq<char>),
>
    decreases ts.len(),
{
    if ts.len() == 0 {
        Seq::empty()
    } else {
        spec_tpl_remove(ts.drop_last(), key) + (if ts.last().0 == key {
            Seq::empty()
        } else {
            seq![ts.last()]
        })
    }
}

/// The default mapping: the eight built-in templates under their keys.
pub open spec fn spec_default_templates() -> Seq<(Seq<char>, Seq<char>)> {
    seq![
        ("title"@, TEMPLATE_TITLE@),
        ("author"@, TEMPLATE_AUTHOR@),
        ("usage"@, TEMPLATE_USAGE@),
        ("positionals"@, TEMPLATE_POSITIONALS@),
        ("options"@, TEMPLATE_OPTIONS@),
        ("description"@, TEMPLATE_DESCRIPTION@),
        ("subcommands"@, TEMPLATE_SUBCOMMANDS@),
        ("examples"@, TEMPLATE_EXAMPLES@),
    ]
}

/// The default key order.
pub open spec fn spec_default_keys() -> Seq<Seq<char>> {
    seq![
        "title"@,
        "author"@,
        "description"@,
        "introduction"@,
        "usage"@,
        "positionals"@,
        "options"@,
        "subcommands"@,
        "examples"@,
    ]
}

/// The maximum of the widths from position `k` on; zero when empty.
pub open spec fn spec_max_width(ws: Seq<usize>, k: int) -> int
    decreases ws.len() - k, when 0 <= k
{
    if k >= ws.len() {
        0
    } else {
        let rest = spec_max_width(ws, k + 1);
        if ws[k] >= rest {
            ws[k] as int
        } else {
            rest
        }
    }
}

/// Bounds of the maximum: no width exceeds it, and it is one of the
/// widths whenever any are given.
pub proof fn lemma_max_width_bounds(ws: Seq<usize>, k: int)
    requires
        0 <= k <= ws.len(),
    ensures
        forall|j: int| k <= j < ws.len() ==> ws[j] <= spec_max_width(ws, k),
        k < ws.len() ==> exists|j: int| k <= j < ws.len() && ws[j] == spec_max_width(ws, k),
    decreases ws.len() - k,
{
    if k < ws.len() {
        lemma_max_width_bounds(ws, k + 1);
        let rest = spec_max_width(ws, k + 1);
        if ws[k] >= rest {
            assert(ws[k] == spec_max_width(ws, k));
        } else {
            assert(k + 1 < ws.len());
            assert(spec_max_width(ws, k) == rest);
        }
    }
}

/// The unified content width of a help invocation: the maximum of the
/// blocks' natural content widths. No block's width exceeds the result,
/// and the result is the width of one of the blocks (zero when there are
/// none).
pub fn unified_width(widths: &Vec<usize>) -> (r: usize)
    ensures
        r as int == spec_max_width(widths@, 0),
        forall|j: int| 0 <= j < widths@.len() ==> widths@[j] <= r,
        widths@.len() > 0 ==> exists|j: int| 0 <= j < widths@.len() && widths@[j] == r,
        widths@.len() == 0 ==> r == 0,
{
    let mut i: usize = widths.len();
    let mut cur: usize = 0;
    while i > 0
        invariant
            i <= widths@.len(),
            cur as int == spec_max_width(widths@, i as int),
        decreases i,
    {
        i = i - 1;
        let w = widths[i];
        if w >= cur {
            cur = w;
        }
    }
    proof {
        lemma_max_width_bounds(widths@, 0);
    }
    cur
}

/// Find the latest template bound to a key.
fn lookup_template(ts: &Vec<(String, String)>, key: &Vec<char>) -> (r: Option<String>)
    ensures
        match r {
            Some(t) => spec_lookup(tpl_view(ts@), key@) == Some(t@),
            None => spec_lookup(tpl_view(ts@), key@) is None,
        },
{
    let mut i: usize = ts.len();
    proof {
        assert(tpl_view(ts@).take(ts@.len() as int) =~= tpl_view(ts@));
    }
    while i > 0
        invariant
            i <= ts@.len(),
            spec_lookup(tpl_view(ts@), key@) == spec_lookup(tpl_view(ts@).take(i as int), key@),
        decreases i,
    {
        i = i - 1;
        let p = &ts[i];
        if chars_eq_str(key, p.0.as_str()) {
            proof {
                assert(tpl_view(ts@).take(i + 1).last() == (p.0@, p.1@));
            }
            return Some(p.1.clone());
        }
        proof {
            assert(tpl_view(ts@).take(i + 1).drop_last() =~= tpl_view(ts@).take(i as int));
        }
    }
    proof {
        assert(tpl_view(ts@).take(0) =~= Seq::<(Seq<char>, Seq<char>)>::empty());
    }
    None
}

/// An object which you can configure to print the help of a command.
pub struct Printer {
    /// The skin the sections are styled with.
    pub skin: termimad::MadSkin,
    /// The variable environment the templates are expanded against.
    pub env: VarEnv,
    /// The ordered section keys; a key without a template is skipped.
    pub template_keys: Vec<String>,
    /// The key-to-template mapping.
    pub templates: Vec<(String, String)>,
    /// Print every section at full terminal width, with no unification.
    pub full_width: bool,
    /// An optional cap on the render width.
    pub max_width: Option<usize>,
}

impl Printer {
    /// A printer for one command description, with the default templates,
    /// the default key order, full-width off and no width cap.
    pub fn new(cmd: &CommandModel) -> (r: Printer)
        ensures
            r.env@.vars == spec_build_vars(*cmd),
            spec_group_subs(r.env@, "option-lines"@) == spec_option_subs(cmd.args@, 0),
            spec_group_subs(r.env@, "positional-lines"@) == spec_positional_subs(cmd.args@, 0),
            spec_group_subs(r.env@, "subcommand-lines"@) == spec_subcommand_subs(
                cmd.subcommands@,
                0,
            ),
            keys_view(r.template_keys@) == spec_default_keys(),
            tpl_view(r.templates@) == spec_default_templates(),
            r.full_width == false,
            r.max_width is None,
    {
        let env = build_env(cmd);
        let default_keys = default_template_keys();
        let mut template_keys: Vec<String> = Vec::new();
        let mut i: usize = 0;
        while i < default_keys.len()
            invariant
                i <= default_keys@.len(),
                template_keys@.len() == i,
                forall|j: int| 0 <= j < i ==> #[trigger] template_keys@[j]@ == default_keys@[j]@,
            decreases default_keys@.len() - i,
        {
            template_keys.push(default_keys[i].to_owned());
            i = i + 1;
        }
        proof {
            assert(keys_view(template_keys@) =~= spec_default_keys());
        }
        let mut templates: Vec<(String, String)> = Vec::new();
        templates.push(("title".to_owned(), TEMPLATE_TITLE.to_owned()));
        templates.push(("author".to_owned(), TEMPLATE_AUTHOR.to_owned()));
        templates.push(("usage".to_owned(), TEMPLATE_USAGE.to_owned()));
        templates.push(("positionals".to_owned(), TEMPLATE_POSITIONALS.to_owned()));
        templates.push(("options".to_owned(), TEMPLATE_OPTIONS.to_owned()));
        templates.push(("description".to_owned(), TEMPLATE_DESCRIPTION.to_owned()));
        templates.push(("subcommands".to_owned(), TEMPLATE_SUBCOMMANDS.to_owned()));
        templates.push(("examples".to_owned(), TEMPLATE_EXAMPLES.to_owned()));
        proof {
            assert(tpl_view(templates@) =~= spec_default_templates());
        }
        Printer {
            skin: skin_default(),
            env,
            template_keys,
            templates,
            full_width: false,
            max_width: None,
        }
    }

    /// A skin for the detected brightness of the terminal's background.
    pub fn make_skin(luma: LumaClass) -> termimad::MadSkin {
        match luma {
            LumaClass::Light => skin_default_light(),
            LumaClass::Dark => skin_default_dark(),
            LumaClass::Other => skin_default(),
        }
    }

    /// Use the provided skin.
    pub fn with_skin(self, skin: termimad::MadSkin) -> (r: Printer)
        ensures
            r.skin == skin,
            r.env == self.env,
            r.template_keys == self.template_keys,
            r.templates == self.templates,
            r.full_width == self.full_width,
            r.max_width == self.max_width,
    {
        Printer { skin, ..self }
    }

    /// Set a maximal render width, so that the whole terminal width is
    /// not used.
    pub fn with_max_width(self, w: usize) -> (r: Printer)
        ensures
            r.max_width == Some(w),
            r.skin == self.skin,
            r.env == self.env,
            r.template_keys == self.template_keys,
            r.templates == self.templates,
            r.full_width == self.full_width,
    {
        Printer { max_width: Some(w), ..self }
    }

    /// Change or add a template under a key.
    pub fn set_template(&mut self, key: &str, template: &str)
        ensures
            tpl_view(final(self).templates@) == tpl_view(old(self).templates@).push(
                (key@, template@),
            ),
            final(self).skin == old(self).skin,
            final(self).env == old(self).env,
            final(self).template_keys == old(self).template_keys,
            final(self).full_width == old(self).full_width,
            final(self).max_width == old(self).max_width,
    {
        self.templates.push((key.to_owned(), template.to_owned()));
        proof {
            assert(tpl_view(self.templates@) =~= tpl_view(old(self).templates@).push(
                (key@, template@),
            ));
        }
    }

    /// Change or add a template, in builder style.
    pub fn with(self, key: &str, template: &str) -> (r: Printer)
        ensures
            tpl_view(r.templates@) == tpl_view(self.templates@).push((key@, template@)),
            r.skin == self.skin,
            r.env == self.env,
            r.template_keys == self.template_keys,
            r.full_width == self.full_width,
            r.max_width == self.max_width,
    {
        let mut p = self;
        p.set_template(key, template);
        p
    }

    /// Unset a template: its key stays in the order list but renders
    /// nothing until a template is set again.
    pub fn without(self, key: &str) -> (r: Printer)
        ensures
            tpl_view(r.templates@) == spec_tpl_remove(tpl_view(self.templates@), key@),
            r.skin == self.skin,
            r.env == self.env,
            r.template_keys == self.template_keys,
            r.full_width == self.full_width,
            r.max_width == self.max_width,
    {
        let kc = chars_of(key);
        let mut kept: Vec<(String, String)> = Vec::new();
        let mut i: usize = 0;
        while i < self.templates.len()
            invariant
                i <= self.templates@.len(),
                kc@ == key@,
                tpl_view(kept@) == spec_tpl_remove(tpl_view(self.templates@).take(i as int), key@),
            decreases self.templates@.len() - i,
        {
            let ghost before = tpl_view(kept@);
            let p = &self.templates[i];
            proof {
                assert(tpl_view(self.templates@).take(i + 1).drop_last() =~= tpl_view(
                    self.templates@,
                ).take(i as int));
                assert(tpl_view(self.templates@).take(i + 1).last() == (p.0@, p.1@));
            }
            if !chars_eq_str(&kc, p.0.as_str()) {
                kept.push((p.0.clone(), p.1.clone()));
                proof {
                    assert(tpl_view(kept@) =~= before.push((p.0@, p.1@)));
                    assert(tpl_view(kept@) =~= spec_tpl_remove(
                        tpl_view(self.templates@).take(i + 1),
                        key@,
                    ));
                }
            } else {
                proof {
                    assert(before + Seq::<(Seq<char>, Seq<char>)>::empty() =~= before);
                }
            }
            i = i + 1;
        }
        proof {
            assert(tpl_view(self.templates@).take(self.templates@.len() as int) =~= tpl_view(
                self.templates@,
            ));
        }
        Printer { templates: kept, ..self }
    }

    /// A mutable reference to the current skin, so that it can be
    /// modified before the render call.
    pub fn skin_mut(&mut self) -> &mut termimad::MadSkin {
        &mut self.skin
    }

    /// A mutable reference to the ordered list of section keys, so that
    /// keys can be inserted, removed or reordered. A key without a
    /// matching template is just skipped.
    pub fn template_keys_mut(&mut self) -> &mut Vec<String> {
        &mut self.template_keys
    }

    /// A mutable reference to the variable environment, to overload the
    /// variables the templates are filled with.
    pub fn env_mut(&mut self) -> &mut VarEnv {
        &mut self.env
    }

    /// Override or add a scalar variable before expansion.
    pub fn set_var(&mut self, name: &str, value: String)
        ensures
            final(self).env@.vars == old(self).env@.vars.push(
                (name@, crate::env::TextVal { text: value@, markdown: false }),
            ),
            final(self).skin == old(self).skin,
            final(self).env@.groups == old(self).env@.groups,
            final(self).template_keys == old(self).template_keys,
            final(self).templates == old(self).templates,
            final(self).full_width == old(self).full_width,
            final(self).max_width == old(self).max_width,
    {
        self.env.set(name, value);
    }

    /// The rendered sections, in key order: one expansion per listed key
    /// that has a template.
    pub fn expanded_sections(&self) -> (r: Vec<String>)
        ensures
            r@.map_values(|s: String| s@) == spec_sections(
                keys_view(self.template_keys@),
                tpl_view(self.templates@),
                self.env@,
                0,
            ),
    {
        let ghost kv = keys_view(self.template_keys@);
        let ghost tv = tpl_view(self.templates@);
        let mut r: Vec<String> = Vec::new();
        let mut k: usize = 0;
        while k < self.template_keys.len()
            invariant
                k <= self.template_keys@.len(),
                kv == keys_view(self.template_keys@),
                tv == tpl_view(self.templates@),
                r@.map_values(|s: String| s@) + spec_sections(kv, tv, self.env@, k as int)
                    == spec_sections(kv, tv, self.env@, 0),
            decreases self.template_keys@.len() - k,
        {
            let ghost before = r@.map_values(|s: String| s@);
            let kc = chars_of(self.template_keys[k].as_str());
            proof {
                assert(kv[k as int] == self.template_keys@[k as int]@);
            }
            let found = lookup_template(&self.templates, &kc);
            match found {
                Some(tpl) => {
                    let expanded = expand(tpl.as_str(), &self.env);
                    r.push(expanded);
                    proof {
                        assert(r@.map_values(|s: String| s@) =~= before.push(
                            spec_expand(tpl@, self.env@),
                        ));
                        assert(before.push(spec_expand(tpl@, self.env@)) + spec_sections(
                            kv,
                            tv,
                            self.env@,
                            k + 1,
                        ) =~= before + (seq![spec_expand(tpl@, self.env@)] + spec_sections(
                            kv,
                            tv,
                            self.env@,
                            k + 1,
                        )));
                    }
                },
                None => {
                    proof {
                        assert(Seq::<Seq<char>>::empty() + spec_sections(kv, tv, self.env@, k + 1)
                            =~= spec_sections(kv, tv, self.env@, k + 1));
                    }
                },
            }
            k = k + 1;
        }
        proof {
            assert(r@.map_values(|s: String| s@) + Seq::<Seq<char>>::empty() =~= r@.map_values(
                |s: String| s@,
            ));
        }
        r
    }

    /// The natural content width of one block of markdown text when laid
    /// out at the given width: what content-width mode measures before it
    /// unifies the blocks.
    pub fn measured_width(&self, md: &str, width: usize) -> usize {
        let ft = fmt_text_from(&self.skin, md, Some(width));
        fmt_content_width(&ft)
    }

    /// Print one template with the printer's environment, at the full
    /// terminal width.
    pub fn print_template(&self, template: &str) {
        let size = terminal_size_now();
        let w: usize = size.0 as usize;
        let expanded = expand(template, &self.env);
        let ft = fmt_text_from(&self.skin, expanded.as_str(), Some(w));
        print_fmt_text(&ft);
    }

    /// Print all the sections, in order.
    pub fn print_help(&self) {
        if self.full_width {
            self.print_help_full_width();
        } else {
            self.print_help_content_width();
        }
    }

    /// Print each section immediately at the full terminal width, with no
    /// cross-section width unification.
    fn print_help_full_width(&self) {
        let mut k: usize = 0;
        while k < self.template_keys.len()
            decreases self.template_keys@.len() - k,
        {
            let kc = chars_of(self.template_keys[k].as_str());
            let found = lookup_template(&self.templates, &kc);
            if let Some(tpl) = found {
                self.print_template(tpl.as_str());
            }
            k = k + 1;
        }
    }

    /// Measure every section at the terminal width (capped by the
    /// optional maximum), then print all of them at the unified content
    /// width, in order.
    fn print_help_content_width(&self) {
        let size = terminal_size_now();
        let mut width: usize = size.0 as usize;
        if let Some(mw) = self.max_width {
            if mw < width {
                width = mw;
            }
        }
        let sections = self.expanded_sections();
        let mut widths: Vec<usize> = Vec::new();
        let mut i: usize = 0;
        while i < sections.len()
            decreases sections@.len() - i,
        {
            let ft = fmt_text_from(&self.skin, sections[i].as_str(), Some(width));
            let cw = fmt_content_width(&ft);
            widths.push(cw);
            i = i + 1;
        }
        let unified = unified_width(&widths);
        let mut j: usize = 0;
        while j < sections.len()
            decreases sections@.len() - j,
        {
            let mut ft = fmt_text_from(&self.skin, sections[j].as_str(), Some(width));
            fmt_set_rendering_width(&mut ft, unified);
            print_fmt_text(&ft);
            j = j + 1;
        }
    }
}

/// Removing a key's template removes its binding.
pub proof fn lemma_tpl_remove_removes(ts: Seq<(Seq<char>, Seq<char>)>, key: Seq<char>)
    ensures
        spec_lookup(spec_tpl_remove(ts, key), key) is None,
    decreases ts.len(),
{
    if ts.len() > 0 {
        lemma_tpl_remove_removes(ts.drop_last(), key);
        if ts.last().0 == key {
            assert(spec_tpl_remove(ts.drop_last(), key) + Seq::<
                (Seq<char>, Seq<char>),
            >::empty() =~= spec_tpl_remove(ts.drop_last(), key));
        } else {
            lemma_lookup_concat(spec_tpl_remove(ts.drop_last(), key), seq![ts.last()], key);
            assert(seq![ts.last()].drop_last() =~= Seq::<(Seq<char>, Seq<char>)>::empty());
            assert(seq![ts.last()].last() == ts.last());
            assert(spec_lookup(Seq::<(Seq<char>, Seq<char>)>::empty(), key) is None);
            assert(spec_lookup(seq![ts.last()], key) is None);
        }
    }
}

/// Removing one key's template leaves every other key's binding as it was.
pub proof fn lemma_tpl_remove_keeps(ts: Seq<(Seq<char>, Seq<char>)>, key: Seq<char>, x: Seq<char>)
    requires
        x != key,
    ensures
        spec_lookup(spec_tpl_remove(ts, key), x) == spec_lookup(ts, x),
    decreases ts.len(),
{
    if ts.len() > 0 {
        lemma_tpl_remove_keeps(ts.drop_last(), key, x);
        if ts.last().0 == key {
            assert(spec_tpl_remove(ts.drop_last(), key) + Seq::<
                (Seq<char>, Seq<char>),
            >::empty() =~= spec_tpl_remove(ts.drop_last(), key));
        } else {
            lemma_lookup_concat(spec_tpl_remove(ts.drop_last(), key), seq![ts.last()], x);
            assert(seq![ts.last()].drop_last() =~= Seq::<(Seq<char>, Seq<char>)>::empty());
            assert(seq![ts.last()].last() == ts.last());
            if ts.last().0 == x {
                assert(spec_lookup(seq![ts.last()], x) == Some(ts.last().1));
                assert(spec_lookup(ts, x) == Some(ts.last().1));
            } else {
                assert(spec_lookup(Seq::<(Seq<char>, Seq<char>)>::empty(), x) is None);
                assert(spec_lookup(seq![ts.last()], x) is None);
                assert(spec_lookup(ts, x) == spec_lookup(ts.drop_last(), x));
            }
        }
    }
}

/// Two mappings that bind the listed keys alike render the same sections.
pub proof fn lemma_sections_pointwise(
    keys: Seq<Seq<char>>,
    ts1: Seq<(Seq<char>, Seq<char>)>,
    ts2: Seq<(Seq<char>, Seq<char>)>,
    env: EnvV,
    k: int,
)
    requires
        0 <= k <= keys.len(),
        forall|j: int|
            0 <= j < keys.len() ==> spec_lookup(ts1, #[trigger] keys[j]) == spec_lookup(
                ts2,
                keys[j],
            ),
    ensures
        spec_sections(keys, ts1, env, k) == spec_sections(keys, ts2, env, k),
    decreases keys.len() - k,
{
    if k < keys.len() {
        lemma_sections_pointwise(keys, ts1, ts2, env, k + 1);
    }
}

/// A listed key whose template was removed renders nothing: the sections
/// from that key on are the sections after it.
pub proof fn lemma_removed_key_renders_nothing(
    keys: Seq<Seq<char>>,
    ts: Seq<(Seq<char>, Seq<char>)>,
    env: EnvV,
    key: Seq<char>,
    k: int,
)
    requires
        0 <= k < keys.len(),
        keys[k] == key,
    ensures
        spec_sections(keys, spec_tpl_remove(ts, key), env, k) == spec_sections(
            keys,
            spec_tpl_remove(ts, key),
            env,
            k + 1,
        ),
{
    lemma_tpl_remove_removes(ts, key);
    assert(Seq::<Seq<char>>::empty() + spec_sections(keys, spec_tpl_remove(ts, key), env, k + 1)
        =~= spec_sections(keys, spec_tpl_remove(ts, key), env, k + 1));
}

/// Template-set mutation: removing a key's mapping and later re-adding
/// the same template restores the original output, with the section's
/// position in the order unchanged.
pub proof fn lemma_template_set_mutation(
    keys: Seq<Seq<char>>,
    ts: Seq<(Seq<char>, Seq<char>)>,
    env: EnvV,
    key: Seq<char>,
    t: Seq<char>,
)
    requires
        spec_lookup(ts, key) == Some(t),
    ensures
        spec_sections(keys, spec_tpl_remove(ts, key).push((key, t)), env, 0) == spec_sections(
            keys,
            ts,
            env,
            0,
        ),
{
    let readded = spec_tpl_remove(ts, key).push((key, t));
    assert forall|j: int|
        0 <= j < keys.len() implies spec_lookup(readded, #[trigger] keys[j]) == spec_lookup(
        ts,
        keys[j],
    ) by {
        assert(readded.drop_last() =~= spec_tpl_remove(ts, key));
        assert(readded.last() == (key, t));
        if keys[j] == key {
        } else {
            lemma_tpl_remove_keeps(ts, key, keys[j]);
        }
    }
    lemma_sections_pointwise(keys, readded, ts, env, 0);
}

} // verus!
