//! The variable environment a template is expanded against: named scalar
//! text values and named ordered groups of sub-environments.
//!
//! Lookups are permissive: a name that was never set resolves to no value,
//! and the expansion engine renders it as empty text. Setting a name again
//! overrides the earlier value (the latest setting wins).

use vstd::prelude::*;

use crate::text::chars_eq_str;
use crate::text::spec_escape;

verus! {

/// A scalar text value; `markdown` records whether the text is to be
/// styled as markdown or inserted as plain text.
pub struct TextValue {
    pub text: String,
    pub markdown: bool,
}

/// Spec-level image of a scalar text value.
pub ghost struct TextVal {
    pub text: Seq<char>,
    pub markdown: bool,
}

/// Spec-level image of one name/value binding list.
pub ghost struct EnvV {
    pub vars: Seq<(Seq<char>, TextVal)>,
    pub groups: Seq<(Seq<char>, Seq<Seq<(Seq<char>, TextVal)>>)>,
}

/// The spec-level image of a scalar value.
pub open spec fn val_of(tv: TextValue) -> TextVal {
    TextVal { text: tv.text@, markdown: tv.markdown }
}

/// The spec-level image of a binding list.
pub open spec fn pairs_view(s: Seq<(String, TextValue)>) -> Seq<(Seq<char>, TextVal)> {
    s.map_values(|p: (String, TextValue)| (p.0@, val_of(p.1)))
}

/// Look a name up in a binding list; the latest binding wins.
pub open spec fn spec_lookup<V>(pairs: Seq<(Seq<char>, V)>, name: Seq<char>) -> Option<V>
    decreases pairs.len(),
{
    if pairs.len() == 0 {
        None
    } else if pairs.last().0 == name {
        Some(pairs.last().1)
    } else {
        spec_lookup(pairs.drop_last(), name)
    }
}

/// The text a scalar value is inserted as: markdown-flagged text goes in
/// as it stands, to be styled; plain text has the renderer's modifier
/// characters escaped, so it is rendered literally.
pub open spec fn spec_inserted_text(tv: TextVal) -> Seq<char> {
    if tv.markdown {
        tv.text
    } else {
        spec_escape(tv.text)
    }
}

/// The text a scalar reference renders as: the bound value's inserted
/// text, or empty when the name is not bound.
pub open spec fn spec_scalar_text(pairs: Seq<(Seq<char>, TextVal)>, name: Seq<char>) -> Seq<char> {
    match spec_lookup(pairs, name) {
        Some(tv) => spec_inserted_text(tv),
        None => Seq::empty(),
    }
}

/// One sub-environment of a repeating group: scalar bindings only.
pub struct SubEnv {
    pub vars: Vec<(String, TextValue)>,
}

/// An ordered variable environment: scalar bindings and repeating groups.
pub struct VarEnv {
    pub vars: Vec<(String, TextValue)>,
    pub groups: Vec<(String, Vec<SubEnv>)>,
}

impl View for SubEnv {
    type V = Seq<(Seq<char>, TextVal)>;

    open spec fn view(&self) -> Seq<(Seq<char>, TextVal)> {
        pairs_view(self.vars@)
    }
}

impl View for VarEnv {
    type V = EnvV;

    open spec fn view(&self) -> EnvV {
        EnvV {
            vars: pairs_view(self.vars@),
            groups: self.groups@.map_values(
                |g: (String, Vec<SubEnv>)| (g.0@, g.1@.map_values(|s: SubEnv| s@)),
            ),
        }
    }
}

/// Look a group name up; the latest binding wins.
pub open spec fn spec_lookup_group(
    groups: Seq<(Seq<char>, Seq<Seq<(Seq<char>, TextVal)>>)>,
    name: Seq<char>,
) -> Option<Seq<Seq<(Seq<char>, TextVal)>>>
    decreases groups.len(),
{
    if groups.len() == 0 {
        None
    } else if groups.last().0 == name {
        Some(groups.last().1)
    } else {
        spec_lookup_group(groups.drop_last(), name)
    }
}

/// The sub-environments a repeating block iterates over: the bound group,
/// or no repetitions when the name is not bound.
pub open spec fn spec_group_subs(env: EnvV, name: Seq<char>) -> Seq<Seq<(Seq<char>, TextVal)>> {
    match spec_lookup_group(env.groups, name) {
        Some(subs) => subs,
        None => Seq::empty(),
    }
}

/// The text a scalar reference renders as inside a repeating block: the
/// sub-environment's binding, else the outer environment's, else empty.
pub open spec fn spec_sub_text(
    sub: Seq<(Seq<char>, TextVal)>,
    env: EnvV,
    name: Seq<char>,
) -> Seq<char> {
    match spec_lookup(sub, name) {
        Some(tv) => spec_inserted_text(tv),
        None => spec_scalar_text(env.vars, name),
    }
}

/// Find the latest binding of `name` in a binding list, scanning from the end.
fn lookup_pairs(pairs: &Vec<(String, TextValue)>, name: &Vec<char>) -> (r: Option<(String, bool)>)
    ensures
        match r {
            Some(v) => spec_lookup(pairs_view(pairs@), name@) == Some(
                TextVal { text: v.0@, markdown: v.1 },
            ),
            None => spec_lookup(pairs_view(pairs@), name@) is None,
        },
{
    let mut i: usize = pairs.len();
    proof {
        assert(pairs_view(pairs@).take(pairs@.len() as int) =~= pairs_view(pairs@));
    }
    while i > 0
        invariant
            i <= pairs@.len(),
            spec_lookup(pairs_view(pairs@), name@) == spec_lookup(
                pairs_view(pairs@).take(i as int),
                name@,
            ),
        decreases i,
    {
        i = i - 1;
        let p = &pairs[i];
        if chars_eq_str(name, p.0.as_str()) {
            proof {
                assert(pairs_view(pairs@).take(i + 1).last() == (p.0@, val_of(p.1)));
            }
            return Some((p.1.text.clone(), p.1.markdown));
        }
        proof {
            assert(pairs_view(pairs@).take(i + 1).drop_last() =~= pairs_view(pairs@).take(i as int));
        }
    }
    proof {
        assert(pairs_view(pairs@).take(0) =~= Seq::empty());
    }
    None
}

impl VarEnv {
    /// An empty environment: no scalar bindings, no groups.
    pub fn new() -> (r: VarEnv)
        ensures
            r@.vars =~= Seq::<(Seq<char>, TextVal)>::empty(),
            r@.groups =~= Seq::<(Seq<char>, Seq<Seq<(Seq<char>, TextVal)>>)>::empty(),
    {
        VarEnv { vars: Vec::new(), groups: Vec::new() }
    }

    /// Bind a scalar name to plain (non-markdown) text, overriding any
    /// earlier binding of the same name.
    pub fn set(&mut self, name: &str, value: String)
        ensures
            final(self)@.vars =~= old(self)@.vars.push(
                (name@, TextVal { text: value@, markdown: false }),
            ),
            final(self)@.groups =~= old(self)@.groups,
    {
        self.set_value(name, TextValue { text: value, markdown: false });
    }

    /// Bind a scalar name to markdown-styled text, overriding any earlier
    /// binding of the same name.
    pub fn set_md(&mut self, name: &str, value: String)
        ensures
            final(self)@.vars =~= old(self)@.vars.push(
                (name@, TextVal { text: value@, markdown: true }),
            ),
            final(self)@.groups =~= old(self)@.groups,
    {
        self.set_value(name, TextValue { text: value, markdown: true });
    }

    /// Bind a scalar name to a value.
    pub fn set_value(&mut self, name: &str, value: TextValue)
        ensures
            final(self)@.vars =~= old(self)@.vars.push((name@, val_of(value))),
            final(self)@.groups =~= old(self)@.groups,
    {
        let key = name.to_owned();
        self.vars.push((key, value));
    }

    /// Append one sub-environment to a group, creating the group if it is
    /// not yet bound.
    pub fn push_sub(&mut self, group: &str, sub: SubEnv)
        ensures
            final(self)@.vars =~= old(self)@.vars,
            final(self)@.groups =~= old(self)@.groups.push(
                (group@, spec_group_subs(old(self)@, group@).push(sub@)),
            ),
    {
        let existing = self.get_group(group);
        let mut subs = match existing {
            Some(v) => v,
            None => Vec::new(),
        };
        proof {
            assert(subs@.map_values(|s: SubEnv| s@) =~= spec_group_subs(old(self)@, group@));
        }
        let ghost prior = subs@.map_values(|s: SubEnv| s@);
        subs.push(sub);
        proof {
            assert(subs@.map_values(|s: SubEnv| s@) =~= prior.push(sub@));
        }
        let key = group.to_owned();
        self.groups.push((key, subs));
    }

    /// A copy of the latest binding of a group name.
    fn get_group(&self, group: &str) -> (r: Option<Vec<SubEnv>>)
        ensures
            match r {
                Some(v) => spec_lookup_group(self@.groups, group@) == Some(
                    v@.map_values(|s: SubEnv| s@),
                ),
                None => spec_lookup_group(self@.groups, group@) is None,
            },
    {
        let gchars = crate::text::chars_of(group);
        let r = self.find_group(&gchars);
        match r {
            Some(i) => Some(clone_subs(&self.groups[i].1)),
            None => None,
        }
    }

    /// The sub-environments bound to a group name; none when it is unbound.
    pub fn subs_of(&self, name: &Vec<char>) -> (r: Vec<SubEnv>)
        ensures
            r@.map_values(|s: SubEnv| s@) == spec_group_subs(self@, name@),
    {
        let r = self.find_group(name);
        match r {
            Some(i) => clone_subs(&self.groups[i].1),
            None => {
                let empty: Vec<SubEnv> = Vec::new();
                proof {
                    assert(empty@.map_values(|s: SubEnv| s@) =~= spec_group_subs(self@, name@));
                }
                empty
            },
        }
    }

    /// Find the index of the latest binding of a group name.
    fn find_group(&self, group: &Vec<char>) -> (r: Option<usize>)
        ensures
            match r {
                Some(i) => {
                    &&& i < self@.groups.len()
                    &&& self@.groups[i as int].0 == group@
                    &&& spec_lookup_group(self@.groups, group@) == Some(self@.groups[i as int].1)
                },
                None => spec_lookup_group(self@.groups, group@) is None,
            },
    {
        let gchars = group;
        let mut i: usize = self.groups.len();
        proof {
            assert(self@.groups.take(self@.groups.len() as int) =~= self@.groups);
        }
        while i > 0
            invariant
                i <= self@.groups.len(),
                gchars@ == group@,
                self@.groups.len() == self.groups@.len(),
                spec_lookup_group(self@.groups, group@) == spec_lookup_group(
                    self@.groups.take(i as int),
                    group@,
                ),
            decreases i,
        {
            i = i - 1;
            if chars_eq_str(gchars, self.groups[i].0.as_str()) {
                proof {
                    assert(self@.groups.take(i + 1).last() == self@.groups[i as int]);
                }
                return Some(i);
            }
            proof {
                assert(self@.groups.take(i + 1).drop_last() =~= self@.groups.take(i as int));
            }
        }
        proof {
            assert(self@.groups.take(0) =~= Seq::<
                (Seq<char>, Seq<Seq<(Seq<char>, TextVal)>>),
            >::empty());
        }
        None
    }

    /// The latest binding of a scalar name: its text and markdown flag.
    pub fn lookup(&self, name: &Vec<char>) -> (r: Option<(String, bool)>)
        ensures
            match r {
                Some(v) => spec_lookup(self@.vars, name@) == Some(
                    TextVal { text: v.0@, markdown: v.1 },
                ),
                None => spec_lookup(self@.vars, name@) is None,
            },
    {
        lookup_pairs(&self.vars, name)
    }
}

impl SubEnv {
    /// An empty sub-environment.
    pub fn new() -> (r: SubEnv)
        ensures
            r@ =~= Seq::<(Seq<char>, TextVal)>::empty(),
    {
        SubEnv { vars: Vec::new() }
    }

    /// Bind a scalar name to plain text.
    pub fn set(&mut self, name: &str, value: String)
        ensures
            final(self)@ =~= old(self)@.push((name@, TextVal { text: value@, markdown: false })),
    {
        let key = name.to_owned();
        self.vars.push((key, TextValue { text: value, markdown: false }));
    }

    /// Bind a scalar name to markdown-styled text.
    pub fn set_md(&mut self, name: &str, value: String)
        ensures
            final(self)@ =~= old(self)@.push((name@, TextVal { text: value@, markdown: true })),
    {
        let key = name.to_owned();
        self.vars.push((key, TextValue { text: value, markdown: true }));
    }

    /// The latest binding of a scalar name: its text and markdown flag.
    pub fn lookup(&self, name: &Vec<char>) -> (r: Option<(String, bool)>)
        ensures
            match r {
                Some(v) => spec_lookup(self@, name@) == Some(
                    TextVal { text: v.0@, markdown: v.1 },
                ),
                None => spec_lookup(self@, name@) is None,
            },
    {
        lookup_pairs(&self.vars, name)
    }
}

/// Looking a name up in a concatenation: the right part wins when it
/// binds the name, else the left part decides.
pub proof fn lemma_lookup_concat<V>(x: Seq<(Seq<char>, V)>, y: Seq<(Seq<char>, V)>, n: Seq<char>)
    ensures
        spec_lookup(x + y, n) == (if spec_lookup(y, n) is Some {
            spec_lookup(y, n)
        } else {
            spec_lookup(x, n)
        }),
    decreases y.len(),
{
    if y.len() == 0 {
        assert(x + y =~= x);
    } else {
        assert((x + y).drop_last() =~= x + y.drop_last());
        assert((x + y).last() == y.last());
        lemma_lookup_concat(x, y.drop_last(), n);
    }
}

/// Whether every group binding carries one of the given names.
pub open spec fn spec_group_names_among(
    groups: Seq<(Seq<char>, Seq<Seq<(Seq<char>, TextVal)>>)>,
    names: Seq<Seq<char>>,
) -> bool {
    forall|j: int| 0 <= j < groups.len() ==> names.contains(#[trigger] groups[j].0)
}

/// A name no group binding carries looks up to nothing.
pub proof fn lemma_group_lookup_none(
    groups: Seq<(Seq<char>, Seq<Seq<(Seq<char>, TextVal)>>)>,
    names: Seq<Seq<char>>,
    g: Seq<char>,
)
    requires
        spec_group_names_among(groups, names),
        !names.contains(g),
    ensures
        spec_lookup_group(groups, g) is None,
    decreases groups.len(),
{
    if groups.len() == 0 {
    } else {
        assert(names.contains(groups[groups.len() - 1].0));
        assert(spec_group_names_among(groups.drop_last(), names));
        lemma_group_lookup_none(groups.drop_last(), names, g);
    }
}

/// Appending a binding of another name leaves a name's lookup unchanged.
pub proof fn lemma_lookup_group_snoc(
    groups2: Seq<(Seq<char>, Seq<Seq<(Seq<char>, TextVal)>>)>,
    groups1: Seq<(Seq<char>, Seq<Seq<(Seq<char>, TextVal)>>)>,
    g: Seq<char>,
)
    requires
        groups2.len() == groups1.len() + 1,
        groups2.drop_last() == groups1,
        groups2.last().0 != g,
    ensures
        spec_lookup_group(groups2, g) == spec_lookup_group(groups1, g),
{
}

/// Clone a vector of sub-environments, preserving its spec-level image.
fn clone_subs(subs: &Vec<SubEnv>) -> (r: Vec<SubEnv>)
    ensures
        r@.map_values(|s: SubEnv| s@) =~= subs@.map_values(|s: SubEnv| s@),
{
    let mut r: Vec<SubEnv> = Vec::new();
    let mut i: usize = 0;
    while i < subs.len()
        invariant
            i <= subs@.len(),
            r@.len() == i,
            forall|j: int| 0 <= j < i ==> r@[j]@ == subs@[j]@,
        decreases subs@.len() - i,
    {
        let mut vars: Vec<(String, TextValue)> = Vec::new();
        let src = &subs[i].vars;
        let mut k: usize = 0;
        while k < src.len()
            invariant
                k <= src@.len(),
                vars@.len() == k,
                forall|j: int|
                    0 <= j < k ==> #[trigger] vars@[j].0@ == src@[j].0@ && vars@[j].1.text@
                        == src@[j].1.text@ && vars@[j].1.markdown == src@[j].1.markdown,
            decreases src@.len() - k,
        {
            let p = &src[k];
            vars.push((p.0.clone(), TextValue { text: p.1.text.clone(), markdown: p.1.markdown }));
            proof {
                assert(vars@[k as int].0@ == src@[k as int].0@);
                assert(vars@[k as int].1.text@ == src@[k as int].1.text@);
                assert(vars@[k as int].1.markdown == src@[k as int].1.markdown);
            }
            k = k + 1;
        }
        let se = SubEnv { vars };
        proof {
            assert(se@ =~= subs@[i as int]@);
        }
        r.push(se);
        i = i + 1;
    }
    r
}

} // verus!
