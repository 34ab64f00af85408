//! Character-sequence utilities: conversions between strings and
//! character vectors, comparison, Unicode case folding, and escaping of
//! the terminal renderer's markdown modifier characters.

use vstd::prelude::*;
use vstd::string::StrSliceExecFns;

verus! {

/// The Unicode lowercase folding of a character sequence, as std's
/// `str::to_lowercase` computes it. Its full definition is the Unicode
/// case-mapping table, so it is only named here; `lowercase` below ties
/// it to the std function.
pub uninterp spec fn lower_of(s: Seq<char>) -> Seq<char>;

/// Whether every character is an ASCII lowercase letter or a hyphen: the
/// character set of the canonical preset identifiers.
pub open spec fn spec_canonical_chars(s: Seq<char>) -> bool {
    forall|i: int| 0 <= i < s.len() ==> ('a' <= #[trigger] s[i] && s[i] <= 'z') || s[i] == '-'
}

/// Whether a character is one of the markdown modifiers the renderer
/// recognizes inline, escapable with a backslash.
pub open spec fn spec_is_modifier_char(c: char) -> bool {
    c == '*' || c == '~' || c == '|' || c == '`' || c == '\\'
}

/// A character sequence with every markdown modifier character preceded
/// by a backslash, from position `i` on: inserted into markdown text, it
/// renders as the original characters, unstyled.
pub open spec fn spec_escape_from(t: Seq<char>, i: int) -> Seq<char>
    decreases t.len() - i, when 0 <= i
{
    if i >= t.len() {
        Seq::empty()
    } else {
        (if spec_is_modifier_char(t[i]) {
            seq!['\\', t[i]]
        } else {
            seq![t[i]]
        }) + spec_escape_from(t, i + 1)
    }
}

/// A character sequence with every markdown modifier character escaped.
pub open spec fn spec_escape(t: Seq<char>) -> Seq<char> {
    spec_escape_from(t, 0)
}

/// Relies on std's `str::to_lowercase`: the Unicode lowercase equivalent
/// of the string, a function of its characters alone. A character with no
/// lowercase conversion, such as an ASCII lowercase letter or a hyphen,
/// is kept unchanged.
#[verifier::external_body]
pub(crate) fn lowercase(s: &str) -> (r: String)
    ensures
        r@ == lower_of(s@),
        spec_canonical_chars(s@) ==> r@ == s@,
{
    s.to_lowercase()
}

/// The sequence of characters of a string slice.
pub fn chars_of(s: &str) -> (r: Vec<char>)
    ensures
        r@ == s@,
{
    let n: usize = s.unicode_len();
    let mut r: Vec<char> = Vec::new();
    let mut i: usize = 0;
    while i < n
        invariant
            i <= n,
            n == s@.len(),
            r@ == s@.take(i as int),
        decreases n - i,
    {
        let c = s.get_char(i);
        r.push(c);
        proof {
            assert(s@.take(i + 1 as int) =~= s@.take(i as int).push(s@[i as int]));
        }
        i = i + 1;
    }
    proof {
        assert(s@.take(n as int) =~= s@);
    }
    r
}

/// Relies on std's `FromIterator<char> for String`: collecting characters
/// yields the string of exactly those characters, in order.
#[verifier::external_body]
pub fn string_from_chars(v: &Vec<char>) -> (r: String)
    ensures
        r@ == v@,
{
    v.iter().collect()
}

/// Whether a character vector holds exactly the characters of a string slice.
pub fn chars_eq_str(v: &Vec<char>, s: &str) -> (r: bool)
    ensures
        r == (v@ == s@),
{
    let n: usize = s.unicode_len();
    if v.len() != n {
        return false;
    }
    let mut i: usize = 0;
    while i < n
        invariant
            i <= n,
            n == s@.len(),
            v@.len() == n,
            forall|j: int| 0 <= j < i ==> v@[j] == s@[j],
        decreases n - i,
    {
        if v[i] != s.get_char(i) {
            return false;
        }
        i = i + 1;
    }
    proof {
        assert(v@ =~= s@);
    }
    true
}

/// Append the characters of a string slice with every markdown modifier
/// character escaped.
pub fn push_escaped(out: &mut Vec<char>, s: &str)
    ensures
        final(out)@ == old(out)@ + spec_escape(s@),
{
    let n: usize = s.unicode_len();
    let mut i: usize = 0;
    while i < n
        invariant
            i <= n,
            n == s@.len(),
            out@ + spec_escape_from(s@, i as int) == old(out)@ + spec_escape_from(s@, 0),
        decreases n - i,
    {
        let ghost before = out@;
        let c = s.get_char(i);
        if c == '*' || c == '~' || c == '|' || c == '`' || c == '\\' {
            out.push('\\');
            out.push(c);
            proof {
                assert(out@ =~= before + seq!['\\', s@[i as int]]);
            }
        } else {
            out.push(c);
            proof {
                assert(out@ =~= before + seq![s@[i as int]]);
            }
        }
        proof {
            assert(out@ + spec_escape_from(s@, i + 1) =~= before + spec_escape_from(s@, i as int));
        }
        i = i + 1;
    }
    proof {
        assert(out@ + spec_escape_from(s@, i as int) =~= out@);
    }
}

/// Append the characters of a string slice to a character vector.
pub fn push_str_chars(out: &mut Vec<char>, s: &str)
    ensures
        final(out)@ == old(out)@ + s@,
{
    let n: usize = s.unicode_len();
    let mut i: usize = 0;
    while i < n
        invariant
            i <= n,
            n == s@.len(),
            out@ == old(out)@ + s@.take(i as int),
        decreases n - i,
    {
        let c = s.get_char(i);
        out.push(c);
        proof {
            assert(s@.take(i + 1 as int) =~= s@.take(i as int).push(s@[i as int]));
        }
        i = i + 1;
    }
    proof {
        assert(s@.take(n as int) =~= s@);
    }
}

} // verus!
