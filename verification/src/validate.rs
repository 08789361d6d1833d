//! Field validation: length bounds on the trimmed text and, for names, a
//! character class of plain and accented Latin letters and whitespace.

use vstd::prelude::*;

verus! {

/// Shortest accepted name, counted on the trimmed text.
pub const NAME_MIN_LEN: usize = 3;

/// Longest accepted name, counted on the trimmed text.
pub const NAME_MAX_LEN: usize = 50;

/// Shortest accepted message, counted on the trimmed text.
pub const MESSAGE_MIN_LEN: usize = 10;

/// Longest accepted message, counted on the trimmed text.
pub const MESSAGE_MAX_LEN: usize = 500;

/// Whitespace as the validator understands it: space, tab, line feed,
/// vertical tab, form feed, carriage return.
pub open spec fn is_space_char(c: char) -> bool {
    c == ' ' || c == '\t' || c == '\n' || c == '\r' || c == '\u{b}' || c == '\u{c}'
}

/// A letter accepted in a name: the plain Latin alphabet and the accented
/// set a/e/i/o/u with acute accent, n with tilde, and their uppercase forms.
pub open spec fn is_name_letter(c: char) -> bool {
    (97 <= c as u32 && c as u32 <= 122)  // a..z
    || (65 <= c as u32 && c as u32 <= 90)  // A..Z
    || c == '\u{e1}' || c == '\u{e9}' || c == '\u{ed}' || c == '\u{f3}' || c == '\u{fa}'
    || c == '\u{c1}' || c == '\u{c9}' || c == '\u{cd}' || c == '\u{d3}' || c == '\u{da}'
    || c == '\u{f1}' || c == '\u{d1}'
}

/// A character a name may contain.
pub open spec fn is_name_char(c: char) -> bool {
    is_name_letter(c) || is_space_char(c)
}

/// The text with its leading whitespace removed.
pub open spec fn trim_start(s: Seq<char>) -> Seq<char>
    decreases s.len(),
{
    if s.len() > 0 && is_space_char(s[0]) {
        trim_start(s.skip(1))
    } else {
        s
    }
}

/// The text with its trailing whitespace removed.
pub open spec fn trim_end(s: Seq<char>) -> Seq<char>
    decreases s.len(),
{
    if s.len() > 0 && is_space_char(s[s.len() - 1]) {
        trim_end(s.take(s.len() - 1))
    } else {
        s
    }
}

/// The text with whitespace removed from both ends.
pub open spec fn trimmed(s: Seq<char>) -> Seq<char> {
    trim_end(trim_start(s))
}

/// An acceptable name: trimmed length within bounds, every character a
/// letter or whitespace.
pub open spec fn valid_name(s: Seq<char>) -> bool {
    &&& NAME_MIN_LEN <= trimmed(s).len()
    &&& trimmed(s).len() <= NAME_MAX_LEN
    &&& forall|i: int| 0 <= i < s.len() ==> is_name_char(#[trigger] s[i])
}

/// An acceptable message: trimmed length within bounds.
pub open spec fn valid_message(s: Seq<char>) -> bool {
    MESSAGE_MIN_LEN <= trimmed(s).len() && trimmed(s).len() <= MESSAGE_MAX_LEN
}

/// Why a submission was turned away by validation.
#[derive(Clone, Copy, Debug, PartialEq, Eq, Structural)]
pub enum ValidationError {
    InvalidName,
    InvalidMessage,
}

fn is_space_char_exec(c: char) -> (b: bool)
    ensures
        b == is_space_char(c),
{
    c == ' ' || c == '\t' || c == '\n' || c == '\r' || c == '\u{b}' || c == '\u{c}'
}

fn is_name_char_exec(c: char) -> (b: bool)
    ensures
        b == is_name_char(c),
{
    let u = c as u32;
    (97 <= u && u <= 122) || (65 <= u && u <= 90) || c == '\u{e1}' || c == '\u{e9}' || c
        == '\u{ed}' || c == '\u{f3}' || c == '\u{fa}' || c == '\u{c1}' || c == '\u{c9}' || c
        == '\u{cd}' || c == '\u{d3}' || c == '\u{da}' || c == '\u{f1}' || c == '\u{d1}' || c == ' '
        || c == '\t' || c == '\n' || c == '\r' || c == '\u{b}' || c == '\u{c}'
}

proof fn lemma_trim_start_at(s: Seq<char>, k: int)
    requires
        0 <= k <= s.len(),
        forall|j: int| 0 <= j < k ==> is_space_char(#[trigger] s[j]),
        k < s.len() ==> !is_space_char(s[k]),
    ensures
        trim_start(s) == s.skip(k),
    decreases k,
{
    if k == 0 {
        assert(s.skip(0) =~= s);
    } else {
        assert(is_space_char(s[0]));
        assert forall|j: int| 0 <= j < k - 1 implies is_space_char(#[trigger] s.skip(1)[j]) by {
            assert(s.skip(1)[j] == s[j + 1]);
        }
        if k - 1 < s.skip(1).len() {
            assert(s.skip(1)[k - 1] == s[k]);
        }
        lemma_trim_start_at(s.skip(1), k - 1);
        assert(s.skip(1).skip(k - 1) =~= s.skip(k));
    }
}

proof fn lemma_trim_end_at(s: Seq<char>, m: int)
    requires
        0 <= m <= s.len(),
        forall|j: int| m <= j < s.len() ==> is_space_char(#[trigger] s[j]),
        m > 0 ==> !is_space_char(s[m - 1]),
    ensures
        trim_end(s) == s.take(m),
    decreases s.len() - m,
{
    if m == s.len() {
        if s.len() > 0 && is_space_char(s[s.len() - 1]) {
            assert forall|j: int|
                m - 1 <= j < s.take(s.len() - 1).len() implies is_space_char(
                #[trigger] s.take(s.len() - 1)[j],
            ) by {
                assert(s.take(s.len() - 1)[j] == s[j]);
            }
            lemma_trim_end_at(s.take(s.len() - 1), m - 1);
            assert(false);
        } else {
            assert(trim_end(s) == s);
            assert(s.take(m) =~= s);
        }
    } else {
        assert(is_space_char(s[s.len() - 1]));
        let t = s.take(s.len() - 1);
        assert forall|j: int| m <= j < t.len() implies is_space_char(#[trigger] t[j]) by {
            assert(t[j] == s[j]);
        }
        if m > 0 {
            assert(t[m - 1] == s[m - 1]);
        }
        lemma_trim_end_at(t, m);
        assert(t.take(m) =~= s.take(m));
    }
}

/// The length of the trimmed text, found by scanning in from both ends.
fn trimmed_len(v: &Vec<char>) -> (n: usize)
    ensures
        n == trimmed(v@).len(),
{
    let len = v.len();
    let mut start: usize = 0;
    while start < len && is_space_char_exec(v[start])
        invariant
            start <= len,
            len == v@.len(),
            forall|j: int| 0 <= j < start ==> is_space_char(#[trigger] v@[j]),
        decreases len - start,
    {
        start = start + 1;
    }
    proof {
        lemma_trim_start_at(v@, start as int);
    }
    let mut end: usize = len;
    while end > start && is_space_char_exec(v[end - 1])
        invariant
            start <= end <= len,
            len == v@.len(),
            forall|j: int| end <= j < len ==> is_space_char(#[trigger] v@[j]),
        decreases end,
    {
        end = end - 1;
    }
    proof {
        let tail = v@.skip(start as int);
        assert forall|j: int| end - start <= j < tail.len() implies is_space_char(
            #[trigger] tail[j],
        ) by {
            assert(tail[j] == v@[j + start]);
        }
        if end > start {
            assert(tail[end - start - 1] == v@[end - 1]);
        }
        lemma_trim_end_at(tail, end - start);
    }
    end - start
}

/// Check a sanitized name: trimmed length in bounds, characters restricted
/// to letters and whitespace.
pub fn validate_name(name: &str) -> (r: Result<(), ValidationError>)
    ensures
        r is Ok <==> valid_name(name@),
        r is Err ==> r->Err_0 is InvalidName,
{
    let v = crate::text::to_char_vec(name);
    let mut i: usize = 0;
    let mut all_ok = true;
    while i < v.len()
        invariant
            i <= v@.len(),
            all_ok <==> (forall|j: int| 0 <= j < i ==> is_name_char(#[trigger] v@[j])),
        decreases v@.len() - i,
    {
        if !is_name_char_exec(v[i]) {
            all_ok = false;
        }
        i = i + 1;
    }
    if !all_ok {
        return Err(ValidationError::InvalidName);
    }
    let t = trimmed_len(&v);
    if NAME_MIN_LEN <= t && t <= NAME_MAX_LEN {
        Ok(())
    } else {
        Err(ValidationError::InvalidName)
    }
}

/// Check a sanitized message: trimmed length in bounds.
pub fn validate_message(message: &str) -> (r: Result<(), ValidationError>)
    ensures
        r is Ok <==> valid_message(message@),
        r is Err ==> r->Err_0 is InvalidMessage,
{
    let v = crate::text::to_char_vec(message);
    let t = trimmed_len(&v);
    if MESSAGE_MIN_LEN <= t && t <= MESSAGE_MAX_LEN {
        Ok(())
    } else {
        Err(ValidationError::InvalidMessage)
    }
}

} // verus!
