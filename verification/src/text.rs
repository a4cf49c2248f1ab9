//! Character-level helpers shared by the GLSL lexer, parser and preprocessor.
//!
//! Text is handled as a vector of `char`s; positions are indices into it.
use vstd::prelude::*;

verus! {

/// The whitespace that the expression grammar skips: space, tab, CR and LF.
pub open spec fn is_ws(c: char) -> bool {
    c == ' ' || c == '\t' || c == '\r' || c == '\n'
}

/// Blanks inside a line: space and tab.
pub open spec fn is_blank(c: char) -> bool {
    c == ' ' || c == '\t'
}

/// First index at or after `p` that does not hold whitespace (or `p` itself when out of range).
pub open spec fn skip_ws(s: Seq<char>, p: int) -> int
    decreases s.len() - p,
{
    if 0 <= p < s.len() && is_ws(s[p]) {
        skip_ws(s, p + 1)
    } else {
        p
    }
}

/// First index at or after `p` that does not hold a blank.
pub open spec fn skip_blank(s: Seq<char>, p: int) -> int
    decreases s.len() - p,
{
    if 0 <= p < s.len() && is_blank(s[p]) {
        skip_blank(s, p + 1)
    } else {
        p
    }
}

pub proof fn lemma_skip_ws_bounds(s: Seq<char>, p: int)
    requires
        0 <= p <= s.len(),
    ensures
        p <= skip_ws(s, p) <= s.len(),
        skip_ws(s, p) < s.len() ==> !is_ws(s[skip_ws(s, p)]),
        forall|i: int| p <= i < skip_ws(s, p) ==> is_ws(#[trigger] s[i]),
    decreases s.len() - p,
{
    if p < s.len() && is_ws(s[p]) {
        lemma_skip_ws_bounds(s, p + 1);
    }
}

pub proof fn lemma_skip_blank_bounds(s: Seq<char>, p: int)
    requires
        0 <= p <= s.len(),
    ensures
        p <= skip_blank(s, p) <= s.len(),
        skip_blank(s, p) < s.len() ==> !is_blank(s[skip_blank(s, p)]),
        forall|i: int| p <= i < skip_blank(s, p) ==> is_blank(#[trigger] s[i]),
    decreases s.len() - p,
{
    if p < s.len() && is_blank(s[p]) {
        lemma_skip_blank_bounds(s, p + 1);
    }
}

/// `t` occurs in `s` at position `p`.
pub open spec fn has_tag(s: Seq<char>, p: int, t: Seq<char>) -> bool {
    0 <= p && p + t.len() <= s.len() && s.subrange(p, p + t.len()) == t
}

/// ASCII lower-casing of a character code.
pub open spec fn lower_code(c: char) -> u32 {
    if 'A' <= c && c <= 'Z' {
        (c as u32 + 32) as u32
    } else {
        c as u32
    }
}

/// `t` occurs in `s` at position `p`, ignoring ASCII case.
pub open spec fn has_tag_nocase(s: Seq<char>, p: int, t: Seq<char>) -> bool {
    &&& 0 <= p
    &&& p + t.len() <= s.len()
    &&& forall|i: int| 0 <= i < t.len() ==> lower_code(#[trigger] s[p + i]) == lower_code(t[i])
}

pub fn is_ws_char(c: char) -> (b: bool)
    ensures
        b == is_ws(c),
{
    c == ' ' || c == '\t' || c == '\r' || c == '\n'
}

pub fn is_blank_char(c: char) -> (b: bool)
    ensures
        b == is_blank(c),
{
    c == ' ' || c == '\t'
}

pub fn lower_code_of(c: char) -> (r: u32)
    ensures
        r == lower_code(c),
{
    if 'A' <= c && c <= 'Z' {
        c as u32 + 32
    } else {
        c as u32
    }
}

/// Skips spaces, tabs, carriage returns and line feeds.
pub fn skip_ws_at(s: &Vec<char>, p: usize) -> (r: usize)
    requires
        p <= s.len(),
    ensures
        r == skip_ws(s@, p as int),
        p <= r <= s.len(),
{
    let mut i = p;
    while i < s.len() && is_ws_char(s[i])
        invariant
            p <= i <= s.len(),
            skip_ws(s@, i as int) == skip_ws(s@, p as int),
        decreases s.len() - i,
    {
        i = i + 1;
    }
    i
}

/// Skips spaces and tabs.
pub fn skip_blank_at(s: &Vec<char>, p: usize) -> (r: usize)
    requires
        p <= s.len(),
    ensures
        r == skip_blank(s@, p as int),
        p <= r <= s.len(),
{
    let mut i = p;
    while i < s.len() && is_blank_char(s[i])
        invariant
            p <= i <= s.len(),
            skip_blank(s@, i as int) == skip_blank(s@, p as int),
        decreases s.len() - i,
    {
        i = i + 1;
    }
    i
}

/// Whether the literal `t` occurs in `s` at position `p`.
pub fn tag_at(s: &Vec<char>, p: usize, t: &str) -> (b: bool)
    ensures
        b == has_tag(s@, p as int, t@),
{
    let n = t.unicode_len();
    if p > s.len() || n > s.len() - p {
        return false;
    }
    let mut i: usize = 0;
    while i < n
        invariant
            n == t@.len(),
            p + n <= s.len(),
            i <= n,
            forall|j: int| 0 <= j < i ==> s@[p + j] == t@[j],
        decreases n - i,
    {
        if s[p + i] != t.get_char(i) {
            assert(s@.subrange(p as int, p + n)[i as int] != t@[i as int]);
            return false;
        }
        i = i + 1;
    }
    assert(s@.subrange(p as int, p + n) =~= t@);
    true
}

/// Whether the literal `t` occurs in `s` at position `p`, ignoring ASCII case.
pub fn tag_nocase_at(s: &Vec<char>, p: usize, t: &str) -> (b: bool)
    ensures
        b == has_tag_nocase(s@, p as int, t@),
{
    let n = t.unicode_len();
    if p > s.len() || n > s.len() - p {
        return false;
    }
    let mut i: usize = 0;
    while i < n
        invariant
            n == t@.len(),
            p + n <= s.len(),
            i <= n,
            forall|j: int| 0 <= j < i ==> lower_code(#[trigger] s@[p + j]) == lower_code(t@[j]),
        decreases n - i,
    {
        if lower_code_of(s[p + i]) != lower_code_of(t.get_char(i)) {
            return false;
        }
        i = i + 1;
    }
    true
}

/// Appends one character to a string, by std's `String::push`.
///
/// Trusted: the contract claims what std documents of `String::push`, that
/// the character is appended to the end of the string and nothing else
/// changes.
#[verifier::external_body]
pub(crate) fn push_char(s: &mut String, c: char)
    ensures
        final(s)@ == old(s)@.push(c),
{
    s.push(c);
}

/// The characters of `s`, in order.
pub fn chars_of(s: &str) -> (v: Vec<char>)
    ensures
        v@ == s@,
{
    let mut v: Vec<char> = Vec::new();
    for c in it: s.chars()
        invariant
            v@ == it.seq().take(it.index() as int),
    {
        v.push(c);
    }
    v
}

/// The string made of `v[a..b]`.
pub fn string_of_range(v: &Vec<char>, a: usize, b: usize) -> (r: String)
    requires
        a <= b <= v.len(),
    ensures
        r@ == v@.subrange(a as int, b as int),
{
    let mut r = String::new();
    let mut i = a;
    while i < b
        invariant
            a <= i <= b <= v.len(),
            r@ == v@.subrange(a as int, i as int),
        decreases b - i,
    {
        push_char(&mut r, v[i]);
        assert(v@.subrange(a as int, i + 1) =~= v@.subrange(a as int, i as int).push(v@[i as int]));
        i = i + 1;
    }
    r
}

/// The string made of all of `v`.
pub fn string_of(v: &Vec<char>) -> (r: String)
    ensures
        r@ == v@,
{
    let r = string_of_range(v, 0, v.len());
    assert(v@.subrange(0, v@.len() as int) =~= v@);
    r
}

/// Appends the characters of `t` to `v`.
pub fn append_str(v: &mut Vec<char>, t: &str)
    ensures
        final(v)@ == old(v)@ + t@,
{
    let n = t.unicode_len();
    let mut i: usize = 0;
    while i < n
        invariant
            n == t@.len(),
            i <= n,
            v@ == old(v)@ + t@.subrange(0, i as int),
        decreases n - i,
    {
        v.push(t.get_char(i));
        assert(t@.subrange(0, i + 1) =~= t@.subrange(0, i as int).push(t@[i as int]));
        i = i + 1;
    }
    assert(t@.subrange(0, n as int) =~= t@);
}

/// Appends the characters of `t` to `v`.
pub fn append_string(v: &mut Vec<char>, t: &String)
    ensures
        final(v)@ == old(v)@ + t@,
{
    append_str(v, t.as_str());
}

/// The decimal digit `d`.
pub open spec fn digit_char(d: nat) -> char {
    if d == 0 { '0' } else if d == 1 { '1' } else if d == 2 { '2' } else if d == 3 { '3' }
    else if d == 4 { '4' } else if d == 5 { '5' } else if d == 6 { '6' } else if d == 7 { '7' }
    else if d == 8 { '8' } else { '9' }
}

/// The decimal spelling of `n`.
pub open spec fn decimal(n: nat) -> Seq<char>
    decreases n,
{
    if n < 10 {
        seq![digit_char(n)]
    } else {
        decimal(n / 10).push(digit_char(n % 10))
    }
}

fn digit_char_of(d: usize) -> (c: char)
    requires
        d < 10,
    ensures
        c == digit_char(d as nat),
{
    if d == 0 { '0' } else if d == 1 { '1' } else if d == 2 { '2' } else if d == 3 { '3' }
    else if d == 4 { '4' } else if d == 5 { '5' } else if d == 6 { '6' } else if d == 7 { '7' }
    else if d == 8 { '8' } else { '9' }
}

/// Appends the decimal spelling of `n` to `v`.
pub fn push_decimal(v: &mut Vec<char>, n: usize)
    ensures
        final(v)@ == old(v)@ + decimal(n as nat),
    decreases n,
{
    if n < 10 {
        v.push(digit_char_of(n));
        assert(old(v)@.push(digit_char(n as nat)) =~= old(v)@ + seq![digit_char(n as nat)]);
    } else {
        push_decimal(v, n / 10);
        v.push(digit_char_of(n % 10));
        assert(old(v)@ + decimal((n / 10) as nat) + seq![digit_char((n % 10) as nat)] =~= old(v)@ + decimal(n as nat));
    }
}

} // verus!
