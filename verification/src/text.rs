//! Text sanitization: strips a fixed denylist of characters (`<`, `>`, `"`,
//! `'`, `;`) and the two-character sequence `--` from submitted text before
//! validation and storage.

use vstd::prelude::*;
use vstd::string::StrSliceExecFns;

verus! {

/// A character the sanitizer removes outright.
pub open spec fn is_forbidden_char(c: char) -> bool {
    c == '<' || c == '>' || c == '"' || c == '\'' || c == ';'
}

/// First pass of the sanitizer: drop every denylisted single character.
pub open spec fn strip_chars(s: Seq<char>) -> Seq<char>
    decreases s.len(),
{
    if s.len() == 0 {
        Seq::empty()
    } else if is_forbidden_char(s[0]) {
        strip_chars(s.skip(1))
    } else {
        seq![s[0]] + strip_chars(s.skip(1))
    }
}

/// Second pass of the sanitizer: remove each occurrence of `--`, scanning
/// left to right without overlap.
pub open spec fn strip_double_dash(s: Seq<char>) -> Seq<char>
    decreases s.len(),
{
    if s.len() >= 2 && s[0] == '-' && s[1] == '-' {
        strip_double_dash(s.skip(2))
    } else if s.len() >= 1 {
        seq![s[0]] + strip_double_dash(s.skip(1))
    } else {
        Seq::empty()
    }
}

/// What sanitization produces: both passes, single characters first.
pub open spec fn sanitize_spec(s: Seq<char>) -> Seq<char> {
    strip_double_dash(strip_chars(s))
}

/// No denylisted single character occurs in `s`.
pub open spec fn no_forbidden(s: Seq<char>) -> bool {
    forall|i: int| 0 <= i < s.len() ==> !is_forbidden_char(#[trigger] s[i])
}

/// The sequence `--` does not occur in `s`.
pub open spec fn no_double_dash(s: Seq<char>) -> bool {
    forall|i: int| 0 <= i && i + 1 < s.len() ==> !(#[trigger] s[i] == '-' && s[i + 1] == '-')
}

/// Sanitized text: free of every denylisted character and of `--`.
pub open spec fn is_clean(s: Seq<char>) -> bool {
    no_forbidden(s) && no_double_dash(s)
}

/// Collect the characters of a string slice into a vector.
pub(crate) fn to_char_vec(s: &str) -> (v: Vec<char>)
    ensures
        v@ == s@,
{
    let n: usize = s.unicode_len();
    let mut v: Vec<char> = Vec::new();
    let mut i: usize = 0;
    while i < n
        invariant
            i <= n,
            n == s@.len(),
            v@ == s@.take(i as int),
        decreases n - i,
    {
        let c = s.get_char(i);
        v.push(c);
        proof {
            assert(s@.take(i + 1 as int) =~= s@.take(i as int).push(s@[i as int]));
        }
        i = i + 1;
    }
    proof {
        assert(s@.take(n as int) =~= s@);
    }
    v
}

/// Character-by-character string comparison.
pub(crate) fn str_eq(a: &str, b: &str) -> (r: bool)
    ensures
        r == (a@ == b@),
{
    let av = to_char_vec(a);
    let bv = to_char_vec(b);
    if av.len() != bv.len() {
        return false;
    }
    let mut i: usize = 0;
    while i < av.len()
        invariant
            i <= av@.len(),
            av@.len() == bv@.len(),
            av@ == a@,
            bv@ == b@,
            forall|j: int| 0 <= j < i ==> av@[j] == bv@[j],
        decreases av@.len() - i,
    {
        if av[i] != bv[i] {
            return false;
        }
        i = i + 1;
    }
    proof {
        assert(a@ =~= b@);
    }
    true
}

/// Relies on `String::push`: appends exactly the one character.
#[verifier::external_body]
fn push_char(s: &mut String, c: char)
    ensures
        final(s)@ == old(s)@.push(c),
{
    s.push(c);
}

/// Rebuild a string from a vector of characters.
fn from_chars(v: &Vec<char>) -> (r: String)
    ensures
        r@ == v@,
{
    let mut r = String::new();
    let mut i: usize = 0;
    while i < v.len()
        invariant
            i <= v@.len(),
            r@ == v@.take(i as int),
        decreases v@.len() - i,
    {
        push_char(&mut r, v[i]);
        proof {
            assert(v@.take(i + 1 as int) =~= v@.take(i as int).push(v@[i as int]));
        }
        i = i + 1;
    }
    proof {
        assert(v@.take(v@.len() as int) =~= v@);
    }
    r
}

/// Drop the denylisted single characters from `v`.
fn strip_chars_exec(v: &Vec<char>) -> (r: Vec<char>)
    ensures
        r@ == strip_chars(v@),
{
    let mut r: Vec<char> = Vec::new();
    let mut i: usize = 0;
    proof {
        assert(v@.skip(0) =~= v@);
        assert(r@ + strip_chars(v@) =~= strip_chars(v@));
    }
    while i < v.len()
        invariant
            i <= v@.len(),
            strip_chars(v@) == r@ + strip_chars(v@.skip(i as int)),
        decreases v@.len() - i,
    {
        let c = v[i];
        proof {
            assert(v@.skip(i as int)[0] == v@[i as int]);
            assert(v@.skip(i as int).skip(1) =~= v@.skip(i + 1 as int));
        }
        if !(c == '<' || c == '>' || c == '"' || c == '\'' || c == ';') {
            r.push(c);
            proof {
                assert(r@ + strip_chars(v@.skip(i + 1 as int)) =~= (r@.drop_last() + seq![c])
                    + strip_chars(v@.skip(i + 1 as int)));
                assert((r@.drop_last() + seq![c]) + strip_chars(v@.skip(i + 1 as int))
                    =~= r@.drop_last() + (seq![c] + strip_chars(v@.skip(i + 1 as int))));
            }
        }
        i = i + 1;
    }
    proof {
        assert(strip_chars(v@.skip(v@.len() as int)) =~= Seq::<char>::empty());
        assert(r@ + Seq::<char>::empty() =~= r@);
    }
    r
}

/// Remove each `--`, scanning left to right without overlap.
fn strip_double_dash_exec(v: &Vec<char>) -> (r: Vec<char>)
    ensures
        r@ == strip_double_dash(v@),
{
    let mut r: Vec<char> = Vec::new();
    let mut i: usize = 0;
    proof {
        assert(v@.skip(0) =~= v@);
        assert(r@ + strip_double_dash(v@) =~= strip_double_dash(v@));
    }
    while i < v.len()
        invariant
            i <= v@.len(),
            strip_double_dash(v@) == r@ + strip_double_dash(v@.skip(i as int)),
        decreases v@.len() - i,
    {
        proof {
            assert(v@.skip(i as int)[0] == v@[i as int]);
        }
        if i + 1 < v.len() && v[i] == '-' && v[i + 1] == '-' {
            proof {
                assert(v@.skip(i as int)[1] == v@[i + 1 as int]);
                assert(v@.skip(i as int).skip(2) =~= v@.skip(i + 2 as int));
            }
            i = i + 2;
        } else {
            let c = v[i];
            proof {
                if v@.skip(i as int).len() >= 2 {
                    assert(v@.skip(i as int)[1] == v@[i + 1 as int]);
                }
                assert(v@.skip(i as int).skip(1) =~= v@.skip(i + 1 as int));
            }
            r.push(c);
            proof {
                assert(r@ + strip_double_dash(v@.skip(i + 1 as int)) =~= (r@.drop_last()
                    + seq![c]) + strip_double_dash(v@.skip(i + 1 as int)));
                assert((r@.drop_last() + seq![c]) + strip_double_dash(v@.skip(i + 1 as int))
                    =~= r@.drop_last() + (seq![c] + strip_double_dash(v@.skip(i + 1 as int))));
            }
            i = i + 1;
        }
    }
    proof {
        assert(strip_double_dash(v@.skip(v@.len() as int)) =~= Seq::<char>::empty());
        assert(r@ + Seq::<char>::empty() =~= r@);
    }
    r
}

/// Sanitize submitted text: remove the denylisted characters, then `--`.
pub fn sanitize(text: &str) -> (r: String)
    ensures
        r@ == sanitize_spec(text@),
{
    let chars = to_char_vec(text);
    let stripped = strip_chars_exec(&chars);
    let dashed = strip_double_dash_exec(&stripped);
    from_chars(&dashed)
}

proof fn lemma_strip_chars_no_forbidden(s: Seq<char>)
    ensures
        no_forbidden(strip_chars(s)),
    decreases s.len(),
{
    if s.len() == 0 {
    } else if is_forbidden_char(s[0]) {
        lemma_strip_chars_no_forbidden(s.skip(1));
    } else {
        lemma_strip_chars_no_forbidden(s.skip(1));
        let out = strip_chars(s);
        let rest = strip_chars(s.skip(1));
        assert forall|i: int| 0 <= i < out.len() implies !is_forbidden_char(#[trigger] out[i]) by {
            if i > 0 {
                assert(out[i] == rest[i - 1]);
            }
        }
    }
}

proof fn lemma_skip_no_forbidden(s: Seq<char>, k: int)
    requires
        no_forbidden(s),
        0 <= k <= s.len(),
    ensures
        no_forbidden(s.skip(k)),
{
    assert forall|i: int| 0 <= i < s.skip(k).len() implies !is_forbidden_char(
        #[trigger] s.skip(k)[i],
    ) by {
        assert(s.skip(k)[i] == s[i + k]);
    }
}

proof fn lemma_strip_dd_no_forbidden(s: Seq<char>)
    requires
        no_forbidden(s),
    ensures
        no_forbidden(strip_double_dash(s)),
    decreases s.len(),
{
    if s.len() >= 2 && s[0] == '-' && s[1] == '-' {
        lemma_skip_no_forbidden(s, 2);
        lemma_strip_dd_no_forbidden(s.skip(2));
    } else if s.len() >= 1 {
        lemma_skip_no_forbidden(s, 1);
        lemma_strip_dd_no_forbidden(s.skip(1));
        let out = strip_double_dash(s);
        let rest = strip_double_dash(s.skip(1));
        assert forall|i: int| 0 <= i < out.len() implies !is_forbidden_char(#[trigger] out[i]) by {
            if i > 0 {
                assert(out[i] == rest[i - 1]);
            }
        }
    }
}

proof fn lemma_strip_dd_head(s: Seq<char>)
    requires
        s.len() >= 1,
        s[0] != '-',
    ensures
        strip_double_dash(s).len() >= 1,
        strip_double_dash(s)[0] == s[0],
{
}

proof fn lemma_strip_dd_no_dd(s: Seq<char>)
    ensures
        no_double_dash(strip_double_dash(s)),
    decreases s.len(),
{
    if s.len() >= 2 && s[0] == '-' && s[1] == '-' {
        lemma_strip_dd_no_dd(s.skip(2));
    } else if s.len() >= 1 {
        lemma_strip_dd_no_dd(s.skip(1));
        let out = strip_double_dash(s);
        let rest = strip_double_dash(s.skip(1));
        assert forall|i: int| 0 <= i && i + 1 < out.len() implies !(#[trigger] out[i] == '-'
            && out[i + 1] == '-') by {
            if i == 0 {
                assert(out[0] == s[0]);
                assert(out[1] == rest[0]);
                if s[0] == '-' {
                    assert(s.skip(1).len() >= 1);
                    assert(s[1] != '-');
                    assert(s.skip(1)[0] == s[1]);
                    lemma_strip_dd_head(s.skip(1));
                }
            } else {
                assert(out[i] == rest[i - 1]);
                assert(out[i + 1] == rest[i]);
            }
        }
    }
}

proof fn lemma_strip_chars_id(s: Seq<char>)
    requires
        no_forbidden(s),
    ensures
        strip_chars(s) == s,
    decreases s.len(),
{
    if s.len() == 0 {
        assert(strip_chars(s) =~= s);
    } else {
        lemma_skip_no_forbidden(s, 1);
        lemma_strip_chars_id(s.skip(1));
        assert(strip_chars(s) =~= s);
    }
}

proof fn lemma_strip_dd_id(s: Seq<char>)
    requires
        no_double_dash(s),
    ensures
        strip_double_dash(s) == s,
    decreases s.len(),
{
    if s.len() == 0 {
        assert(strip_double_dash(s) =~= s);
    } else {
        assert(!(s.len() >= 2 && s[0] == '-' && s[1] == '-'));
        assert forall|i: int| 0 <= i && i + 1 < s.skip(1).len() implies !(#[trigger] s.skip(1)[i]
            == '-' && s.skip(1)[i + 1] == '-') by {
            assert(s.skip(1)[i] == s[i + 1]);
            assert(s.skip(1)[i + 1] == s[i + 2]);
        }
        lemma_strip_dd_id(s.skip(1));
        assert(strip_double_dash(s) =~= s);
    }
}

/// Law: whatever the input, sanitized text is clean — it contains no
/// denylisted character and no occurrence of `--`.
pub proof fn lemma_sanitize_clean(s: Seq<char>)
    ensures
        is_clean(sanitize_spec(s)),
{
    lemma_strip_chars_no_forbidden(s);
    lemma_strip_dd_no_forbidden(strip_chars(s));
    lemma_strip_dd_no_dd(strip_chars(s));
}

/// Law: sanitization is idempotent — sanitizing already-sanitized text
/// changes nothing.
pub proof fn lemma_sanitize_idempotent(s: Seq<char>)
    ensures
        sanitize_spec(sanitize_spec(s)) == sanitize_spec(s),
{
    lemma_sanitize_clean(s);
    lemma_strip_chars_id(sanitize_spec(s));
    lemma_strip_dd_id(sanitize_spec(s));
}

/// Sanitize a text field in place.
pub fn sanitize_text(text: &mut String)
    ensures
        final(text)@ == sanitize_spec(old(text)@),
{
    let r = sanitize(text.as_str());
    *text = r;
}

} // verus!
