//! The first two stages of preprocessing: splitting into lines (joining lines
//! that end with a backslash) and removing comments.
use vstd::prelude::*;
use crate::text::{is_blank, skip_blank, skip_blank_at, has_tag, tag_at, lemma_skip_blank_bounds};

verus! {

/// Unicode `White_Space`, as `char::is_whitespace` defines it.
pub open spec fn is_unicode_ws(c: char) -> bool {
    c == '\t' || c == '\n' || c == '\u{0B}' || c == '\u{0C}' || c == '\r' || c == ' '
        || c == '\u{85}' || c == '\u{A0}' || c == '\u{1680}' || ('\u{2000}' <= c && c <= '\u{200A}')
        || c == '\u{2028}' || c == '\u{2029}' || c == '\u{202F}' || c == '\u{205F}'
        || c == '\u{3000}'
}

fn is_unicode_ws_char(c: char) -> (r: bool)
    ensures
        r == is_unicode_ws(c),
{
    c == '\t' || c == '\n' || c == '\u{0B}' || c == '\u{0C}' || c == '\r' || c == ' '
        || c == '\u{85}' || c == '\u{A0}' || c == '\u{1680}' || ('\u{2000}' <= c && c <= '\u{200A}')
        || c == '\u{2028}' || c == '\u{2029}' || c == '\u{202F}' || c == '\u{205F}'
        || c == '\u{3000}'
}

/// `t` without its trailing whitespace.
pub open spec fn trim_end(t: Seq<char>) -> Seq<char>
    decreases t.len(),
{
    if t.len() > 0 && is_unicode_ws(t.last()) {
        trim_end(t.drop_last())
    } else {
        t
    }
}

/// A line break (`\n` or `\r\n`) at `p`: the position after it.
pub open spec fn line_ending(s: Seq<char>, p: int) -> Option<int> {
    if has_tag(s, p, seq!['\n']) {
        Some(p + 1)
    } else if has_tag(s, p, seq!['\r', '\n']) {
        Some(p + 2)
    } else {
        None
    }
}

pub fn line_ending_at(s: &Vec<char>, p: usize) -> (r: Option<usize>)
    ensures
        match r {
            Some(q) => line_ending(s@, p as int) == Some(q as int) && p < q <= s.len(),
            None => line_ending(s@, p as int) is None,
        },
{
    if p < s.len() && s[p] == '\n' {
        assert(s@.subrange(p as int, p + 1) =~= seq!['\n']);
        Some(p + 1)
    } else if p < s.len() && s.len() - p >= 2 && s[p] == '\r' && s[p + 1] == '\n' {
        assert(s@.subrange(p as int, p + 2) =~= seq!['\r', '\n']);
        Some(p + 2)
    } else {
        proof {
            if has_tag(s@, p as int, seq!['\n']) {
                assert(s@.subrange(p as int, p + 1)[0] == s@[p as int]);
            }
            if has_tag(s@, p as int, seq!['\r', '\n']) {
                assert(s@.subrange(p as int, p + 2)[0] == s@[p as int]);
                assert(s@.subrange(p as int, p + 2)[1] == s@[p + 1]);
            }
        }
        None
    }
}

/// End of the line content that starts at `p`: the first CR or LF, or the end.
pub open spec fn content_end(s: Seq<char>, p: int) -> int
    decreases s.len() - p,
{
    if 0 <= p < s.len() && s[p] != '\r' && s[p] != '\n' {
        content_end(s, p + 1)
    } else {
        p
    }
}

proof fn lemma_content_end(s: Seq<char>, p: int)
    requires
        0 <= p <= s.len(),
    ensures
        p <= content_end(s, p) <= s.len(),
    decreases s.len() - p,
{
    if p < s.len() && s[p] != '\r' && s[p] != '\n' {
        lemma_content_end(s, p + 1);
    }
}

/// The lines of `s` from `p` on, each without trailing whitespace. Reading
/// stops at the first line that is not ended by a line break, so a last line
/// without one is not part of the result.
pub open spec fn spec_lines(s: Seq<char>, p: int) -> Seq<Seq<char>>
    decreases s.len() - p,
{
    if !(0 <= p <= s.len()) {
        Seq::empty()
    } else {
        let c = content_end(s, p);
        match line_ending(s, c) {
            Some(e) => if p < e <= s.len() {
                seq![trim_end(s.subrange(p, c))] + spec_lines(s, e)
            } else {
                Seq::empty()
            },
            None => Seq::empty(),
        }
    }
}

/// Lines joined one by one: each next line follows a line break, except
/// where the text joined so far ends with a backslash; then that backslash is
/// removed and the line follows directly. (The text joined so far can end
/// with a backslash that an empty line brought forward.)
pub open spec fn concat_lines(ls: Seq<Seq<char>>) -> Seq<char>
    decreases ls.len(),
{
    if ls.len() == 0 {
        Seq::empty()
    } else if ls.len() == 1 {
        ls[0]
    } else {
        let c = concat_lines(ls.drop_last());
        if c.len() > 0 && c.last() == '\\' {
            c.drop_last() + ls.last()
        } else {
            c + seq!['\n'] + ls.last()
        }
    }
}

/// The text after the first stage: the lines of `s`, joined.
pub open spec fn spec_join_lines(s: Seq<char>) -> Seq<char> {
    concat_lines(spec_lines(s, 0))
}

fn trimmed_end(s: &Vec<char>, a: usize, b: usize) -> (r: usize)
    requires
        a <= b <= s.len(),
    ensures
        a <= r <= b,
        s@.subrange(a as int, r as int) == trim_end(s@.subrange(a as int, b as int)),
{
    let mut k = b;
    while k > a && is_unicode_ws_char(s[k - 1])
        invariant
            a <= k <= b <= s.len(),
            trim_end(s@.subrange(a as int, k as int)) == trim_end(s@.subrange(a as int, b as int)),
        decreases k - a,
    {
        assert(s@.subrange(a as int, k as int).drop_last() =~= s@.subrange(a as int, k - 1));
        k = k - 1;
    }
    proof {
        let t = s@.subrange(a as int, k as int);
        if t.len() > 0 {
            assert(t.last() == s@[k - 1]);
        }
    }
    k
}

/// Splits `s` into lines without trailing whitespace and joins them as
/// [`concat_lines`] says.
pub fn join_lines(s: &Vec<char>) -> (r: Vec<char>)
    ensures
        r@ == spec_join_lines(s@),
{
    let mut out: Vec<char> = Vec::new();
    let ghost mut done: Seq<Seq<char>> = Seq::empty();
    let mut p: usize = 0;
    let mut first = true;
    while p <= s.len()
        invariant
            p <= s.len(),
            first == (done.len() == 0),
            spec_lines(s@, 0) == done + spec_lines(s@, p as int),
            out@ == concat_lines(done),
        decreases s.len() - p,
    {
        let c = content_end_at(s, p);
        match line_ending_at(s, c) {
            Some(e) => {
                let k = trimmed_end(s, p, c);
                let ghost line = trim_end(s@.subrange(p as int, c as int));
                let ghost prev = out@;
                if first {
                    let mut i = p;
                    while i < k
                        invariant
                            p <= i <= k <= s.len(),
                            out@ == prev + s@.subrange(p as int, i as int),
                        decreases k - i,
                    {
                        out.push(s[i]);
                        assert(s@.subrange(p as int, i + 1) =~= s@.subrange(p as int, i as int).push(s@[i as int]));
                        i = i + 1;
                    }
                    assert(prev =~= Seq::<char>::empty());
                    assert(out@ =~= line);
                } else {
                    if out.len() > 0 && out[out.len() - 1] == '\\' {
                        out.pop();
                    } else {
                        out.push('\n');
                    }
                    let ghost mid = out@;
                    let mut i = p;
                    while i < k
                        invariant
                            p <= i <= k <= s.len(),
                            out@ == mid + s@.subrange(p as int, i as int),
                        decreases k - i,
                    {
                        out.push(s[i]);
                        assert(s@.subrange(p as int, i + 1) =~= s@.subrange(p as int, i as int).push(s@[i as int]));
                        i = i + 1;
                    }
                    proof {
                        let d2 = done.push(line);
                        assert(d2.drop_last() =~= done);
                        if prev.len() > 0 && prev.last() == '\\' {
                            assert(mid =~= prev.drop_last());
                        } else {
                            assert(mid =~= prev + seq!['\n']);
                        }
                        assert(out@ =~= concat_lines(d2));
                    }
                }
                proof {
                    assert(spec_lines(s@, p as int) == seq![line] + spec_lines(s@, e as int));
                    assert(done + (seq![line] + spec_lines(s@, e as int)) =~= done.push(line) + spec_lines(s@, e as int));
                    if done.len() == 0 {
                        assert(done.push(line) =~= seq![line]);
                    }
                    done = done.push(line);
                }
                first = false;
                p = e;
            },
            None => {
                proof {
                    assert(done + Seq::<Seq<char>>::empty() =~= done);
                }
                return out;
            },
        }
    }
    out
}

fn content_end_at(s: &Vec<char>, p: usize) -> (r: usize)
    requires
        p <= s.len(),
    ensures
        r == content_end(s@, p as int),
        p <= r <= s.len(),
{
    let mut i = p;
    while i < s.len() && s[i] != '\r' && s[i] != '\n'
        invariant
            p <= i <= s.len(),
            content_end(s@, i as int) == content_end(s@, p as int),
        decreases s.len() - i,
    {
        i = i + 1;
    }
    i
}


/// The first occurrence of `t` at or after `i`.
pub open spec fn find_from(s: Seq<char>, i: int, t: Seq<char>) -> Option<int>
    decreases s.len() - i,
{
    if !(0 <= i <= s.len()) {
        None
    } else if has_tag(s, i, t) {
        Some(i)
    } else if i == s.len() {
        None
    } else {
        find_from(s, i + 1, t)
    }
}

proof fn lemma_find_from(s: Seq<char>, i: int, t: Seq<char>)
    requires
        0 <= i <= s.len(),
    ensures
        find_from(s, i, t) matches Some(k) ==> i <= k <= s.len() && has_tag(s, k, t),
    decreases s.len() - i,
{
    if !has_tag(s, i, t) && i < s.len() {
        lemma_find_from(s, i + 1, t);
    }
}

fn find_from_at(s: &Vec<char>, i: usize, t: &str) -> (r: Option<usize>)
    requires
        i <= s.len(),
    ensures
        match r {
            Some(k) => find_from(s@, i as int, t@) == Some(k as int) && i <= k <= s.len(),
            None => find_from(s@, i as int, t@) is None,
        },
{
    let mut j = i;
    while j <= s.len()
        invariant
            i <= j <= s.len(),
            find_from(s@, j as int, t@) == find_from(s@, i as int, t@),
        decreases s.len() - j,
    {
        if tag_at(s, j, t) {
            return Some(j);
        }
        if j == s.len() {
            return None;
        }
        j = j + 1;
    }
    None
}

/// The separator skipped before each word in the second stage: a `//`
/// comment up to (not including) the next line break, a `/* */` comment, or
/// else a run of blanks. A comment without its end is not a comment.
pub open spec fn comment_end(s: Seq<char>, p: int) -> int {
    if has_tag(s, p, "//"@) && find_from(s, p + 2, seq!['\n']) is Some {
        find_from(s, p + 2, seq!['\n'])->0
    } else if has_tag(s, p, "/*"@) && find_from(s, p + 2, "*/"@) is Some {
        find_from(s, p + 2, "*/"@)->0 + 2
    } else {
        skip_blank(s, p)
    }
}

pub open spec fn is_multispace(c: char) -> bool {
    c == '\r' || c == '\n' || c == ' ' || c == '\t'
}

/// End of the run of characters other than CR, LF, space and tab from `q`.
pub open spec fn chunk_end(s: Seq<char>, q: int) -> int
    decreases s.len() - q,
{
    if 0 <= q < s.len() && !is_multispace(s[q]) {
        chunk_end(s, q + 1)
    } else {
        q
    }
}

proof fn lemma_chunk_end(s: Seq<char>, q: int)
    requires
        0 <= q <= s.len(),
    ensures
        q <= chunk_end(s, q) <= s.len(),
    decreases s.len() - q,
{
    if q < s.len() && !is_multispace(s[q]) {
        lemma_chunk_end(s, q + 1);
    }
}

/// One step of the second stage at `p`: after the separator, a word (a run of
/// characters other than whitespace) or a line break.
pub open spec fn spec_word_step(s: Seq<char>, p: int) -> Option<(Seq<char>, int)> {
    let q = comment_end(s, p);
    if 0 <= q < s.len() && !is_multispace(s[q]) {
        Some((s.subrange(q, chunk_end(s, q)), chunk_end(s, q)))
    } else {
        match line_ending(s, q) {
            Some(e) => Some((s.subrange(q, e), e)),
            None => None,
        }
    }
}

/// The second stage from `p`: each word or line break, preceded by a space.
/// Reading stops where no word or line break follows the separator.
pub open spec fn spec_remove_comments_from(s: Seq<char>, p: int) -> Seq<char>
    decreases s.len() - p,
{
    if !(0 <= p <= s.len()) {
        Seq::empty()
    } else {
        match spec_word_step(s, p) {
            Some((w, e)) => if p < e <= s.len() {
                seq![' '] + w + spec_remove_comments_from(s, e)
            } else {
                Seq::empty()
            },
            None => Seq::empty(),
        }
    }
}

/// The text after the second stage.
pub open spec fn spec_remove_comments(s: Seq<char>) -> Seq<char> {
    spec_remove_comments_from(s, 0)
}

fn comment_end_at(s: &Vec<char>, p: usize) -> (r: usize)
    requires
        p <= s.len(),
    ensures
        r == comment_end(s@, p as int),
        r <= s.len(),
{
    if tag_at(s, p, "//") {
        proof {
            reveal_strlit("//");
        }
        match find_from_at(s, p + 2, "\n") {
            Some(k) => {
                proof {
                    reveal_strlit("\n");
                    assert("\n"@ =~= seq!['\n']);
                }
                return k;
            },
            None => {
                proof {
                    reveal_strlit("\n");
                    assert("\n"@ =~= seq!['\n']);
                }
            },
        }
    }
    if tag_at(s, p, "/*") {
        proof {
            reveal_strlit("/*");
            reveal_strlit("//");
        }
        match find_from_at(s, p + 2, "*/") {
            Some(k) => {
                proof {
                    lemma_find_from(s@, p + 2, "*/"@);
                    reveal_strlit("*/");
                }
                return k + 2;
            },
            None => {},
        }
    }
    proof {
        lemma_skip_blank_bounds(s@, p as int);
    }
    skip_blank_at(s, p)
}

fn chunk_end_at(s: &Vec<char>, q: usize) -> (r: usize)
    requires
        q <= s.len(),
    ensures
        r == chunk_end(s@, q as int),
        q <= r <= s.len(),
{
    let mut i = q;
    while i < s.len() && !(s[i] == '\r' || s[i] == '\n' || s[i] == ' ' || s[i] == '\t')
        invariant
            q <= i <= s.len(),
            chunk_end(s@, i as int) == chunk_end(s@, q as int),
        decreases s.len() - i,
    {
        i = i + 1;
    }
    i
}

/// Removes comments and collapses whitespace: each word (run of characters
/// other than whitespace) and each line break of `s` is written after one space.
pub fn remove_comments(s: &Vec<char>) -> (r: Vec<char>)
    ensures
        r@ == spec_remove_comments(s@),
{
    let mut out: Vec<char> = Vec::new();
    let mut p: usize = 0;
    while p <= s.len()
        invariant
            p <= s.len(),
            spec_remove_comments(s@) == out@ + spec_remove_comments_from(s@, p as int),
        decreases s.len() - p,
    {
        let q = comment_end_at(s, p);
        let e: usize;
        if q < s.len() && !(s[q] == '\r' || s[q] == '\n' || s[q] == ' ' || s[q] == '\t') {
            e = chunk_end_at(s, q);
        } else {
            match line_ending_at(s, q) {
                Some(x) => {
                    e = x;
                },
                None => {
                    proof {
                        assert(out@ + Seq::<char>::empty() =~= out@);
                    }
                    return out;
                },
            }
        }
        if !(p < e) {
            proof {
                assert(out@ + Seq::<char>::empty() =~= out@);
            }
            return out;
        }
        let ghost before = out@;
        out.push(' ');
        let mut i = q;
        while i < e
            invariant
                q <= i <= e <= s.len(),
                out@ == before + seq![' '] + s@.subrange(q as int, i as int),
            decreases e - i,
        {
            out.push(s[i]);
            assert(s@.subrange(q as int, i + 1) =~= s@.subrange(q as int, i as int).push(s@[i as int]));
            i = i + 1;
        }
        proof {
            assert(spec_word_step(s@, p as int) == Some((s@.subrange(q as int, e as int), e as int)));
            assert(before + (seq![' '] + s@.subrange(q as int, e as int) + spec_remove_comments_from(s@, e as int)) =~= out@ + spec_remove_comments_from(s@, e as int));
        }
        p = e;
    }
    out
}

} // verus!
