//! Character-level helpers shared by the parsers and formatters.

use vstd::prelude::*;
use vstd::utf8::encode_utf8;

verus! {

/// Whether a request field is empty or longer than `max` UTF-8 bytes.
pub open spec fn bad_length(s: Seq<char>, max: nat) -> bool {
    s.len() == 0 || encode_utf8(s).len() > max
}

/// Checks a field's length: not empty, at most `max` UTF-8 bytes.
pub fn length_ok(s: &str, max: usize) -> (ok: bool)
    ensures
        ok == !bad_length(s@, max as nat),
{
    !(s.is_empty() || s.as_bytes().len() > max)
}

/// The characters of `s`, in order.
pub fn chars_of(s: &str) -> (v: Vec<char>)
    ensures
        v@ == s@,
{
    let mut v: Vec<char> = Vec::new();
    for c in it: s.chars()
        invariant
            v@ == it.seq().take(it.index() as int),
    {
        v.push(c);
    }
    assert(v@ =~= s@);
    v
}

/// Appends one character to a string (`String::push`).
#[verifier::external_body]
pub(crate) fn push_char(s: &mut String, c: char)
    ensures
        final(s)@ == old(s)@.push(c),
{
    s.push(c);
}

/// A string holding exactly the characters of `v`.
pub fn string_from_chars(v: &Vec<char>) -> (s: String)
    ensures
        s@ == v@,
{
    let mut s = String::new();
    let mut i: usize = 0;
    while i < v.len()
        invariant
            i <= v@.len(),
            s@ == v@.take(i as int),
        decreases v@.len() - i,
    {
        push_char(&mut s, v[i]);
        i = i + 1;
        assert(s@ =~= v@.take(i as int));
    }
    assert(v@.take(i as int) =~= v@);
    s
}

/// The characters that carry the Unicode `White_Space` property, which is
/// what `char::is_whitespace` tests.
pub open spec fn is_white_space(c: char) -> bool {
    let u = c as u32;
    ||| 0x09 <= u <= 0x0D
    ||| u == 0x20
    ||| u == 0x85
    ||| u == 0xA0
    ||| u == 0x1680
    ||| 0x2000 <= u <= 0x200A
    ||| u == 0x2028
    ||| u == 0x2029
    ||| u == 0x202F
    ||| u == 0x205F
    ||| u == 0x3000
}

/// Whether `c` has the Unicode `White_Space` property.
pub fn white_space(c: char) -> (r: bool)
    ensures
        r == is_white_space(c),
{
    let u = c as u32;
    (0x09 <= u && u <= 0x0D) || u == 0x20 || u == 0x85 || u == 0xA0 || u == 0x1680
        || (0x2000 <= u && u <= 0x200A) || u == 0x2028 || u == 0x2029 || u == 0x202F
        || u == 0x205F || u == 0x3000
}

/// The ASCII whitespace set of `u8::is_ascii_whitespace`: space, tab,
/// line feed, form feed and carriage return.
pub open spec fn is_ascii_ws(c: char) -> bool {
    c == ' ' || c == '\t' || c == '\n' || c == '\x0C' || c == '\r'
}

/// Index of the first non-white-space character at or after `i`.
pub open spec fn trim_start_index(s: Seq<char>, i: int) -> int
    decreases s.len() - i,
{
    if i >= s.len() { s.len() as int }
    else if is_white_space(s[i]) { trim_start_index(s, i + 1) }
    else { i }
}

/// One past the last non-white-space character before `j`.
pub open spec fn trim_end_index(s: Seq<char>, j: int) -> int
    decreases j,
{
    if j <= 0 { 0 }
    else if is_white_space(s[j - 1]) { trim_end_index(s, j - 1) }
    else { j }
}

/// `s` without its leading and trailing white space (`str::trim`).
pub open spec fn trim_spec(s: Seq<char>) -> Seq<char> {
    let a = trim_start_index(s, 0);
    let b = trim_end_index(s, s.len() as int);
    if a >= b { Seq::empty() } else { s.subrange(a, b) }
}

/// The characters of `s` without leading and trailing white space.
pub fn trimmed_chars(s: &Vec<char>) -> (t: Vec<char>)
    ensures
        t@ == trim_spec(s@),
{
    let n = s.len();
    let mut a: usize = 0;
    while a < n && white_space(s[a])
        invariant
            a <= n,
            n == s@.len(),
            trim_start_index(s@, 0) == trim_start_index(s@, a as int),
        decreases n - a,
    {
        a = a + 1;
    }
    let mut b: usize = n;
    while b > 0 && white_space(s[b - 1])
        invariant
            b <= n,
            n == s@.len(),
            trim_end_index(s@, n as int) == trim_end_index(s@, b as int),
        decreases b,
    {
        b = b - 1;
    }
    let mut t: Vec<char> = Vec::new();
    if a < b {
        let mut i = a;
        while i < b
            invariant
                a <= i <= b,
                b <= n,
                n == s@.len(),
                t@ == s@.subrange(a as int, i as int),
            decreases b - i,
        {
            t.push(s[i]);
            i = i + 1;
            assert(t@ =~= s@.subrange(a as int, i as int));
        }
    }
    proof {
        assert(trim_start_index(s@, a as int) == a);
        assert(trim_end_index(s@, b as int) == b);
        if a >= b {
            assert(t@ =~= Seq::<char>::empty());
        }
    }
    t
}

} // verus!
