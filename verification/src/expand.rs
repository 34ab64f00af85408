//! The template expansion engine.
//!
//! A template is plain text with two constructs:
//! - a scalar reference `${name}`, replaced by the text bound to `name`
//!   in the environment, or by empty text when `name` is not bound;
//! - a repeating block, opened by `${groupname` followed by a newline and
//!   closed by a newline followed by `}`; the text between (the body,
//!   including its trailing newline) is expanded once per sub-environment
//!   bound to `groupname`, in order. Inside the body, scalar references
//!   resolve against the sub-environment first and fall back to the outer
//!   environment.
//!
//! A markdown-flagged value is inserted as it stands, to be styled; a
//! plain value is inserted with the renderer's modifier characters
//! escaped, so it reads literally in the styled output. A construct that
//! is never terminated is not validated away: the rest of the text is
//! kept literally and expansion stops there.

use vstd::prelude::*;

use crate::env::EnvV;
use crate::env::SubEnv;
use crate::env::TextVal;
use crate::env::VarEnv;
use crate::env::spec_group_subs;
use crate::env::spec_lookup;
use crate::env::spec_scalar_text;
use crate::env::spec_sub_text;
use crate::text::chars_of;
use crate::text::push_escaped;
use crate::text::string_from_chars;

verus! {

/// The spec-level image of one sub-environment.
pub type SubV = Seq<(Seq<char>, TextVal)>;

/// The first position in `[i, end)` holding `'}'` or a newline; `end` if none.
pub open spec fn find_term_in(t: Seq<char>, i: int, end: int) -> int
    decreases end - i, when i <= end
{
    if i >= end {
        end
    } else if t[i] == '}' || t[i] == '\n' {
        i
    } else {
        find_term_in(t, i + 1, end)
    }
}

/// Bounds and characterization of `find_term_in`.
pub proof fn lemma_find_term_in(t: Seq<char>, i: int, end: int)
    requires
        0 <= i <= end <= t.len(),
    ensures
        i <= find_term_in(t, i, end) <= end,
        find_term_in(t, i, end) < end ==> (t[find_term_in(t, i, end)] == '}' || t[find_term_in(
            t,
            i,
            end,
        )] == '\n'),
        forall|j: int|
            i <= j < find_term_in(t, i, end) ==> !(t[j] == '}' || t[j] == '\n'),
    decreases end - i,
{
    if i >= end {
    } else if t[i] == '}' || t[i] == '\n' {
    } else {
        lemma_find_term_in(t, i + 1, end);
    }
}

/// The first position `j >= i` where a newline is followed by `'}'`;
/// `t.len()` if none.
pub open spec fn find_close_from(t: Seq<char>, i: int) -> int
    decreases t.len() - i, when i <= t.len()
{
    if i >= t.len() {
        t.len() as int
    } else if t[i] == '\n' && i + 1 < t.len() && t[i + 1] == '}' {
        i
    } else {
        find_close_from(t, i + 1)
    }
}

/// Bounds of `find_close_from`.
pub proof fn lemma_find_close_from(t: Seq<char>, i: int)
    requires
        0 <= i <= t.len(),
    ensures
        i <= find_close_from(t, i) <= t.len(),
        find_close_from(t, i) < t.len() ==> (t[find_close_from(t, i)] == '\n' && find_close_from(
            t,
            i,
        ) + 1 < t.len() && t[find_close_from(t, i) + 1] == '}'),
    decreases t.len() - i,
{
    if i >= t.len() {
    } else if t[i] == '\n' && i + 1 < t.len() && t[i + 1] == '}' {
    } else {
        lemma_find_close_from(t, i + 1);
    }
}

/// Expansion of a repeating block's body `[i, end)` against one
/// sub-environment, falling back to the outer environment.
pub open spec fn spec_expand_body(t: Seq<char>, i: int, end: int, sub: SubV, env: EnvV) -> Seq<
    char,
>
    decreases end - i, when 0 <= i <= end <= t.len() via spec_expand_body_dec
{
    if i >= end {
        Seq::empty()
    } else if t[i] == '$' && i + 1 < end && t[i + 1] == '{' {
        let j = find_term_in(t, i + 2, end);
        if j == end || t[j] != '}' {
            t.subrange(i, end)
        } else {
            spec_sub_text(sub, env, t.subrange(i + 2, j)) + spec_expand_body(t, j + 1, end, sub, env)
        }
    } else {
        seq![t[i]] + spec_expand_body(t, i + 1, end, sub, env)
    }
}

#[via_fn]
proof fn spec_expand_body_dec(t: Seq<char>, i: int, end: int, sub: SubV, env: EnvV) {
    if 0 <= i && i < end && end <= t.len() {
        if t[i] == '$' && i + 1 < end && t[i + 1] == '{' {
            lemma_find_term_in(t, i + 2, end);
        }
    }
}

/// Expansion of a repeating block: the body `[b0, bend)` expanded once per
/// sub-environment from position `k` on, in order.
pub open spec fn spec_expand_group(
    t: Seq<char>,
    b0: int,
    bend: int,
    subs: Seq<SubV>,
    k: int,
    env: EnvV,
) -> Seq<char>
    decreases subs.len() - k, when 0 <= k
{
    if k >= subs.len() {
        Seq::empty()
    } else {
        spec_expand_body(t, b0, bend, subs[k], env) + spec_expand_group(t, b0, bend, subs, k + 1, env)
    }
}

/// Expansion of a template from position `i` on.
pub open spec fn spec_expand_from(t: Seq<char>, i: int, env: EnvV) -> Seq<char>
    decreases t.len() - i, when 0 <= i <= t.len() via spec_expand_from_dec
{
    if i >= t.len() {
        Seq::empty()
    } else if t[i] == '$' && i + 1 < t.len() && t[i + 1] == '{' {
        let j = find_term_in(t, i + 2, t.len() as int);
        if j == t.len() {
            t.skip(i)
        } else if t[j] == '}' {
            spec_scalar_text(env.vars, t.subrange(i + 2, j)) + spec_expand_from(t, j + 1, env)
        } else {
            let close = find_close_from(t, j + 1);
            if close == t.len() {
                t.skip(i)
            } else {
                spec_expand_group(
                    t,
                    j + 1,
                    close + 1,
                    spec_group_subs(env, t.subrange(i + 2, j)),
                    0,
                    env,
                ) + spec_expand_from(t, close + 2, env)
            }
        }
    } else {
        seq![t[i]] + spec_expand_from(t, i + 1, env)
    }
}

#[via_fn]
proof fn spec_expand_from_dec(t: Seq<char>, i: int, env: EnvV) {
    if 0 <= i && i < t.len() {
        if t[i] == '$' && i + 1 < t.len() && t[i + 1] == '{' {
            lemma_find_term_in(t, i + 2, t.len() as int);
            let j = find_term_in(t, i + 2, t.len() as int);
            if j < t.len() && t[j] != '}' {
                lemma_find_close_from(t, j + 1);
            }
        }
    }
}

/// Expansion of a whole template against an environment.
pub open spec fn spec_expand(t: Seq<char>, env: EnvV) -> Seq<char> {
    spec_expand_from(t, 0, env)
}

/// The first position in `[i, end)` holding `'}'` or a newline; `end` if none.
fn find_term_exec(t: &Vec<char>, i: usize, end: usize) -> (r: usize)
    requires
        i <= end <= t@.len(),
    ensures
        r == find_term_in(t@, i as int, end as int),
{
    let mut k: usize = i;
    while k < end
        invariant
            i <= k <= end <= t@.len(),
            find_term_in(t@, i as int, end as int) == find_term_in(t@, k as int, end as int),
        decreases end - k,
    {
        let c = t[k];
        if c == '}' || c == '\n' {
            return k;
        }
        k = k + 1;
    }
    end
}

/// The first position `j >= i` where a newline is followed by `'}'`.
fn find_close_exec(t: &Vec<char>, i: usize) -> (r: usize)
    requires
        i <= t@.len(),
    ensures
        r == find_close_from(t@, i as int),
{
    let mut k: usize = i;
    while k < t.len()
        invariant
            i <= k <= t@.len(),
            find_close_from(t@, i as int) == find_close_from(t@, k as int),
        decreases t@.len() - k,
    {
        let c = t[k];
        if c == '\n' && k + 1 < t.len() && t[k + 1] == '}' {
            return k;
        }
        k = k + 1;
    }
    t.len()
}

/// Copy the characters of `[i, j)` out of a character vector.
fn copy_range(t: &Vec<char>, i: usize, j: usize) -> (r: Vec<char>)
    requires
        i <= j <= t@.len(),
    ensures
        r@ == t@.subrange(i as int, j as int),
{
    let mut r: Vec<char> = Vec::new();
    let mut k: usize = i;
    while k < j
        invariant
            i <= k <= j <= t@.len(),
            r@ == t@.subrange(i as int, k as int),
        decreases j - k,
    {
        r.push(t[k]);
        proof {
            assert(t@.subrange(i as int, k + 1) =~= t@.subrange(i as int, k as int).push(
                t@[k as int],
            ));
        }
        k = k + 1;
    }
    r
}

/// Append the characters of `[i, j)` of `t` to `out`.
fn push_range(out: &mut Vec<char>, t: &Vec<char>, i: usize, j: usize)
    requires
        i <= j <= t@.len(),
    ensures
        final(out)@ == old(out)@ + t@.subrange(i as int, j as int),
{
    let mut k: usize = i;
    while k < j
        invariant
            i <= k <= j <= t@.len(),
            out@ == old(out)@ + t@.subrange(i as int, k as int),
        decreases j - k,
    {
        out.push(t[k]);
        proof {
            assert(old(out)@ + t@.subrange(i as int, k + 1) =~= (old(out)@ + t@.subrange(
                i as int,
                k as int,
            )).push(t@[k as int]));
        }
        k = k + 1;
    }
    proof {
        assert(out@ =~= old(out)@ + t@.subrange(i as int, j as int));
    }
}

/// Append the text a scalar reference renders as at top level.
fn append_scalar(env: &VarEnv, name: &Vec<char>, out: &mut Vec<char>)
    ensures
        final(out)@ == old(out)@ + spec_scalar_text(env@.vars, name@),
{
    let looked = env.lookup(name);
    match looked {
        Some(v) => {
            if v.1 {
                crate::text::push_str_chars(out, v.0.as_str());
            } else {
                push_escaped(out, v.0.as_str());
            }
        },
        None => {
            proof {
                assert(out@ =~= old(out)@ + Seq::<char>::empty());
            }
        },
    }
}

/// Append the text a scalar reference renders as inside a repeating block.
fn append_sub_scalar(sub: &SubEnv, env: &VarEnv, name: &Vec<char>, out: &mut Vec<char>)
    ensures
        final(out)@ == old(out)@ + spec_sub_text(sub@, env@, name@),
{
    let looked = sub.lookup(name);
    match looked {
        Some(v) => {
            if v.1 {
                crate::text::push_str_chars(out, v.0.as_str());
            } else {
                push_escaped(out, v.0.as_str());
            }
        },
        None => {
            append_scalar(env, name, out);
        },
    }
}

/// Expand a repeating block's body against one sub-environment.
fn expand_body_exec(
    t: &Vec<char>,
    i: usize,
    end: usize,
    sub: &SubEnv,
    env: &VarEnv,
    out: &mut Vec<char>,
)
    requires
        i <= end <= t@.len(),
    ensures
        final(out)@ == old(out)@ + spec_expand_body(t@, i as int, end as int, sub@, env@),
    decreases end - i,
{
    if i >= end {
        proof {
            assert(out@ =~= old(out)@ + Seq::<char>::empty());
        }
        return ;
    }
    let c = t[i];
    if c == '$' && i + 1 < end && t[i + 1] == '{' {
        let j = find_term_exec(t, i + 2, end);
        proof {
            lemma_find_term_in(t@, i + 2, end as int);
        }
        if j == end {
            push_range(out, t, i, end);
        } else if t[j] == '}' {
            let name = copy_range(t, i + 2, j);
            append_sub_scalar(sub, env, &name, out);
            expand_body_exec(t, j + 1, end, sub, env, out);
            proof {
                assert(out@ =~= old(out)@ + (spec_sub_text(sub@, env@, name@) + spec_expand_body(
                    t@,
                    j + 1,
                    end as int,
                    sub@,
                    env@,
                )));
            }
        } else {
            push_range(out, t, i, end);
        }
    } else {
        out.push(c);
        expand_body_exec(t, i + 1, end, sub, env, out);
        proof {
            assert(out@ =~= old(out)@ + (seq![t@[i as int]] + spec_expand_body(
                t@,
                i + 1,
                end as int,
                sub@,
                env@,
            )));
        }
    }
}

/// Expand a repeating block: once per sub-environment, in order.
fn expand_group_exec(
    t: &Vec<char>,
    b0: usize,
    bend: usize,
    subs: &Vec<SubEnv>,
    env: &VarEnv,
    out: &mut Vec<char>,
)
    requires
        b0 <= bend <= t@.len(),
    ensures
        final(out)@ == old(out)@ + spec_expand_group(
            t@,
            b0 as int,
            bend as int,
            subs@.map_values(|s: SubEnv| s@),
            0,
            env@,
        ),
    decreases subs@.len(),
{
    let ghost subs_v = subs@.map_values(|s: SubEnv| s@);
    let mut k: usize = 0;
    while k < subs.len()
        invariant
            k <= subs@.len(),
            b0 <= bend <= t@.len(),
            subs_v == subs@.map_values(|s: SubEnv| s@),
            out@ + spec_expand_group(t@, b0 as int, bend as int, subs_v, k as int, env@) == old(
                out,
            )@ + spec_expand_group(t@, b0 as int, bend as int, subs_v, 0, env@),
        decreases subs@.len() - k,
    {
        let ghost before = out@;
        expand_body_exec(t, b0, bend, &subs[k], env, out);
        proof {
            assert(subs_v[k as int] == subs@[k as int]@);
            assert(spec_expand_group(t@, b0 as int, bend as int, subs_v, k as int, env@)
                == spec_expand_body(t@, b0 as int, bend as int, subs_v[k as int], env@)
                + spec_expand_group(t@, b0 as int, bend as int, subs_v, k + 1, env@));
            assert(out@ + spec_expand_group(t@, b0 as int, bend as int, subs_v, k + 1, env@)
                =~= before + (spec_expand_body(t@, b0 as int, bend as int, subs_v[k as int], env@)
                + spec_expand_group(t@, b0 as int, bend as int, subs_v, k + 1, env@)));
        }
        k = k + 1;
    }
    proof {
        assert(out@ =~= out@ + spec_expand_group(
            t@,
            b0 as int,
            bend as int,
            subs_v,
            k as int,
            env@,
        ));
    }
}

/// Expand a template from position `i` on.
fn expand_from_exec(t: &Vec<char>, i: usize, env: &VarEnv, out: &mut Vec<char>)
    requires
        i <= t@.len(),
    ensures
        final(out)@ == old(out)@ + spec_expand_from(t@, i as int, env@),
    decreases t@.len() - i,
{
    if i >= t.len() {
        proof {
            assert(out@ =~= old(out)@ + Seq::<char>::empty());
        }
        return ;
    }
    let c = t[i];
    if c == '$' && i + 1 < t.len() && t[i + 1] == '{' {
        let j = find_term_exec(t, i + 2, t.len());
        proof {
            lemma_find_term_in(t@, i + 2, t@.len() as int);
        }
        if j == t.len() {
            push_range(out, t, i, t.len());
            proof {
                assert(t@.subrange(i as int, t@.len() as int) =~= t@.skip(i as int));
            }
        } else if t[j] == '}' {
            let name = copy_range(t, i + 2, j);
            append_scalar(env, &name, out);
            expand_from_exec(t, j + 1, env, out);
            proof {
                assert(out@ =~= old(out)@ + (spec_scalar_text(env@.vars, name@)
                    + spec_expand_from(t@, j + 1, env@)));
            }
        } else {
            let close = find_close_exec(t, j + 1);
            proof {
                lemma_find_close_from(t@, j + 1);
            }
            if close == t.len() {
                push_range(out, t, i, t.len());
                proof {
                    assert(t@.subrange(i as int, t@.len() as int) =~= t@.skip(i as int));
                }
            } else {
                let name = copy_range(t, i + 2, j);
                let subs = env.subs_of(&name);
                let ghost before = out@;
                expand_group_exec(t, j + 1, close + 1, &subs, env, out);
                expand_from_exec(t, close + 2, env, out);
                proof {
                    assert(out@ =~= old(out)@ + (spec_expand_group(
                        t@,
                        j + 1,
                        close + 1,
                        spec_group_subs(env@, name@),
                        0,
                        env@,
                    ) + spec_expand_from(t@, close + 2, env@)));
                }
            }
        }
    } else {
        out.push(c);
        expand_from_exec(t, i + 1, env, out);
        proof {
            assert(out@ =~= old(out)@ + (seq![t@[i as int]] + spec_expand_from(
                t@,
                i + 1,
                env@,
            )));
        }
    }
}

/// Expand a template against an environment.
///
/// Pure: the result is a function of the template text and the
/// environment alone.
pub fn expand(template: &str, env: &VarEnv) -> (r: String)
    ensures
        r@ == spec_expand(template@, env@),
{
    let t = chars_of(template);
    let mut out: Vec<char> = Vec::new();
    expand_from_exec(&t, 0, env, &mut out);
    string_from_chars(&out)
}

/// A scalar reference whose name is not bound expands to nothing: the
/// expansion equals that of the text after the reference.
pub proof fn lemma_absent_scalar_expands_empty(t: Seq<char>, i: int, env: EnvV, j: int)
    requires
        0 <= i,
        i + 1 < t.len(),
        t[i] == '$',
        t[i + 1] == '{',
        j == find_term_in(t, i + 2, t.len() as int),
        j < t.len(),
        t[j] == '}',
        spec_lookup(env.vars, t.subrange(i + 2, j)) is None,
    ensures
        spec_expand_from(t, i, env) == spec_expand_from(t, j + 1, env),
{
    lemma_find_term_in(t, i + 2, t.len() as int);
    assert(spec_scalar_text(env.vars, t.subrange(i + 2, j)) =~= Seq::<char>::empty());
    assert(spec_expand_from(t, i, env) =~= Seq::<char>::empty() + spec_expand_from(t, j + 1, env));
    assert(Seq::<char>::empty() + spec_expand_from(t, j + 1, env) =~= spec_expand_from(
        t,
        j + 1,
        env,
    ));
}

/// Inside a repeating block's body, a scalar reference whose name is
/// bound neither in the sub-environment nor in the outer environment
/// expands to nothing.
pub proof fn lemma_absent_body_scalar_expands_empty(
    t: Seq<char>,
    i: int,
    end: int,
    sub: SubV,
    env: EnvV,
    j: int,
)
    requires
        0 <= i,
        i + 1 < end,
        end <= t.len(),
        t[i] == '$',
        t[i + 1] == '{',
        j == find_term_in(t, i + 2, end),
        j < end,
        t[j] == '}',
        spec_lookup(sub, t.subrange(i + 2, j)) is None,
        spec_lookup(env.vars, t.subrange(i + 2, j)) is None,
    ensures
        spec_expand_body(t, i, end, sub, env) == spec_expand_body(t, j + 1, end, sub, env),
{
    lemma_find_term_in(t, i + 2, end);
    assert(spec_sub_text(sub, env, t.subrange(i + 2, j)) =~= Seq::<char>::empty());
    assert(spec_expand_body(t, i, end, sub, env) =~= Seq::<char>::empty() + spec_expand_body(
        t,
        j + 1,
        end,
        sub,
        env,
    ));
    assert(Seq::<char>::empty() + spec_expand_body(t, j + 1, end, sub, env) =~= spec_expand_body(
        t,
        j + 1,
        end,
        sub,
        env,
    ));
}

/// A repeating block expands to exactly one body expansion per
/// sub-environment, in order; zero sub-environments yield empty text.
pub proof fn lemma_group_cardinality(
    t: Seq<char>,
    b0: int,
    bend: int,
    subs: Seq<SubV>,
    k: int,
    env: EnvV,
)
    requires
        0 <= k <= subs.len(),
    ensures
        spec_expand_group(t, b0, bend, subs, k, env) == subs.skip(k).map_values(
            |s: SubV| spec_expand_body(t, b0, bend, s, env),
        ).flatten(),
    decreases subs.len() - k,
{
    let bodies = subs.skip(k).map_values(|s: SubV| spec_expand_body(t, b0, bend, s, env));
    if k == subs.len() {
        assert(subs.skip(k) =~= Seq::<SubV>::empty());
        assert(bodies =~= Seq::<Seq<char>>::empty());
        assert(bodies.flatten() =~= Seq::<char>::empty());
    } else {
        lemma_group_cardinality(t, b0, bend, subs, k + 1, env);
        let rest = subs.skip(k + 1).map_values(|s: SubV| spec_expand_body(t, b0, bend, s, env));
        assert(bodies.drop_first() =~= rest);
        assert(bodies[0] == spec_expand_body(t, b0, bend, subs[k], env));
        assert(bodies.flatten() == bodies[0] + bodies.drop_first().flatten());
    }
}

} // verus!
