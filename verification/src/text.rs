//! Small string helpers: concatenation for message building, and the text
//! picks the shell applies to command output when it reads a device model.
use vstd::prelude::*;
use vstd::string::*;

verus! {

/// The concatenation of two string slices as an owned string.
pub(crate) fn concat_strs(a: &str, b: &str) -> (r: String)
    ensures
        r@ == a@ + b@,
{
    let mut s = String::from_str(a);
    s.append(b);
    s
}

/// The whitespace characters trimming removes.
pub open spec fn spec_is_space(c: char) -> bool {
    c == ' ' || c == '\t' || c == '\r' || c == '\n'
}

fn is_space(c: char) -> (r: bool)
    ensures
        r == spec_is_space(c),
{
    c == ' ' || c == '\t' || c == '\r' || c == '\n'
}

/// The bounds `a..b` mark the input with its leading and trailing
/// whitespace removed.
pub open spec fn spec_trim_bounds(s: Seq<char>, a: int, b: int) -> bool {
    &&& 0 <= a <= b <= s.len()
    &&& forall|i: int| 0 <= i < a ==> spec_is_space(s[i])
    &&& forall|i: int| b <= i < s.len() ==> spec_is_space(s[i])
    &&& a < b ==> !spec_is_space(s[a]) && !spec_is_space(s[b - 1])
}

/// The input without its leading and trailing whitespace; a string of
/// nothing but whitespace becomes empty.
pub fn trimmed(s: &str) -> (r: String)
    ensures
        exists|a: int, b: int|
            #![trigger s@.subrange(a, b)]
            spec_trim_bounds(s@, a, b) && r@ == s@.subrange(a, b),
{
    let n = s.unicode_len();
    let mut start: usize = 0;
    while start < n && is_space(s.get_char(start))
        invariant
            n == s@.len(),
            start <= n,
            forall|i: int| 0 <= i < start ==> spec_is_space(s@[i]),
        decreases n - start,
    {
        start += 1;
    }
    let mut end: usize = n;
    while end > start && is_space(s.get_char(end - 1))
        invariant
            n == s@.len(),
            start <= end <= n,
            forall|i: int| 0 <= i < start ==> spec_is_space(s@[i]),
            forall|i: int| end <= i < n ==> spec_is_space(s@[i]),
        decreases end,
    {
        end -= 1;
    }
    let t = s.substring_char(start, end);
    let r = String::from_str(t);
    proof {
        assert(spec_trim_bounds(s@, start as int, end as int));
        assert(r@ == s@.subrange(start as int, end as int));
    }
    r
}

/// The line text at `start..k`, with one carriage return stripped from its
/// end when the line was terminated by a newline.
pub open spec fn spec_without_trailing_cr(t: Seq<char>, ends_at_newline: bool) -> Seq<char> {
    if ends_at_newline && t.len() > 0 && t.last() == '\r' {
        t.drop_last()
    } else {
        t
    }
}

/// `t` is the second line of `s`: the text between the first newline and
/// the next newline or the end, with a carriage return before a terminating
/// newline stripped.
pub open spec fn spec_second_line_at(s: Seq<char>, i: int, k: int, t: Seq<char>) -> bool {
    &&& 0 <= i
    &&& i + 1 < s.len()
    &&& s[i] == '\n'
    &&& forall|j: int| 0 <= j < i ==> s[j] != '\n'
    &&& i + 1 <= k <= s.len()
    &&& forall|j: int| i + 1 <= j < k ==> s[j] != '\n'
    &&& k < s.len() ==> s[k] == '\n'
    &&& t == spec_without_trailing_cr(s.subrange(i + 1, k), k < s.len())
}

/// `t` is the second line of `s`.
pub open spec fn spec_is_second_line(s: Seq<char>, t: Seq<char>) -> bool {
    exists|i: int, k: int| #[trigger] spec_second_line_at(s, i, k, t)
}

/// The second line of the input, as line splitting treats it: lines end at
/// a newline or at a carriage return followed by a newline, and a final
/// line ending opens no further line. No second line yields `None`.
pub fn second_line(s: &str) -> (r: Option<String>)
    ensures
        r is None <==> (forall|i: int| 0 <= i < s@.len() - 1 ==> s@[i] != '\n'),
        (r matches Some(t) ==> spec_is_second_line(s@, t@)),
{
    let n = s.unicode_len();
    let mut first_nl: usize = 0;
    while first_nl < n && s.get_char(first_nl) != '\n'
        invariant
            n == s@.len(),
            first_nl <= n,
            forall|j: int| 0 <= j < first_nl ==> s@[j] != '\n',
        decreases n - first_nl,
    {
        first_nl += 1;
    }
    if first_nl >= n {
        return None;
    }
    if first_nl + 1 == n {
        return None;
    }
    let start = first_nl + 1;
    let mut k = start;
    while k < n && s.get_char(k) != '\n'
        invariant
            n == s@.len(),
            start <= k <= n,
            forall|j: int| start <= j < k ==> s@[j] != '\n',
        decreases n - k,
    {
        k += 1;
    }
    let mut end = k;
    if k < n && end > start && s.get_char(end - 1) == '\r' {
        end -= 1;
    }
    let t = s.substring_char(start, end);
    let r = String::from_str(t);
    proof {
        assert(s@.subrange(start as int, end as int) =~= spec_without_trailing_cr(
            s@.subrange(start as int, k as int),
            (k as int) < s@.len(),
        ));
        assert(spec_second_line_at(s@, first_nl as int, k as int, r@));
        assert(spec_is_second_line(s@, r@));
        assert(0 <= first_nl < s@.len() - 1 && s@[first_nl as int] == '\n');
    }
    Some(r)
}

} // verus!
