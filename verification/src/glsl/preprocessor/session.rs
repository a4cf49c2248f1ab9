//! The lines of a preprocessed source as macro sessions: directives, token
//! lines and empty lines, and how they are read.
use vstd::prelude::*;
use crate::text::{skip_blank, skip_blank_at, has_tag, has_tag_nocase, tag_at, tag_nocase_at, lemma_skip_blank_bounds};
use crate::glsl::token::{
    Identifier, SToken, Token, spec_identifier, identifier, spec_tokens, tokens, tokens_view,
    basic_type_text,
};
use crate::glsl::expression::{Expression, SExpr, spec_expression, expression, view_exprs, lemma_view_exprs_len};
use crate::glsl::preprocessor::lines::{line_ending, line_ending_at};

verus! {

/// A function-like macro: its body, and for each body token the index of the
/// parameter it names (the last parameter with that token, if several).
pub struct DefineFunc {
    pub positions: Vec<Option<usize>>,
    pub nargs: usize,
    pub tokens: Vec<Token>,
}

/// The mathematical model of a [`DefineFunc`].
pub ghost struct SDefineFunc {
    pub positions: Seq<Option<usize>>,
    pub nargs: nat,
    pub tokens: Seq<SToken>,
}

impl View for DefineFunc {
    type V = SDefineFunc;

    open spec fn view(&self) -> SDefineFunc {
        SDefineFunc { positions: self.positions@, nargs: self.nargs as nat, tokens: tokens_view(self.tokens@) }
    }
}

/// A macro definition: a replacement list, or a function-like macro.
pub enum Define {
    Replace(Vec<Token>),
    Func(DefineFunc),
}

/// The mathematical model of a [`Define`].
pub ghost enum SDefine {
    Replace(Seq<SToken>),
    Func(SDefineFunc),
}

impl View for Define {
    type V = SDefine;

    open spec fn view(&self) -> SDefine {
        match self {
            Define::Replace(ts) => SDefine::Replace(tokens_view(ts@)),
            Define::Func(f) => SDefine::Func(f@),
        }
    }
}

/// A function-like macro is well formed when it has one position per body
/// token and every position names a parameter.
pub open spec fn func_wf(f: SDefineFunc) -> bool {
    &&& f.positions.len() == f.tokens.len()
    &&& forall|k: int| 0 <= k < f.positions.len() ==> (#[trigger] f.positions[k] matches Some(a) ==> a < f.nargs)
}

pub open spec fn define_wf(d: SDefine) -> bool {
    match d {
        SDefine::Replace(_) => true,
        SDefine::Func(f) => func_wf(f),
    }
}

/// The index of the last of `args[0..i]` equal to `t`.
pub open spec fn last_match(args: Seq<SToken>, t: SToken, i: int) -> Option<usize>
    decreases i,
{
    if i <= 0 {
        None
    } else if args[i - 1] == t {
        Some((i - 1) as usize)
    } else {
        last_match(args, t, i - 1)
    }
}

/// The function-like macro with parameters `args` and body `toks`.
pub open spec fn make_func(args: Seq<SToken>, toks: Seq<SToken>) -> SDefineFunc {
    SDefineFunc {
        positions: Seq::new(toks.len(), |k: int| last_match(args, toks[k], args.len() as int)),
        nargs: args.len(),
        tokens: toks,
    }
}

pub proof fn lemma_last_match_bound(args: Seq<SToken>, t: SToken, i: int)
    requires
        i <= args.len(),
    ensures
        last_match(args, t, i) matches Some(a) ==> 0 <= a < i,
    decreases i,
{
    if i > 0 && args[i - 1] != t {
        lemma_last_match_bound(args, t, i - 1);
    }
}

pub proof fn lemma_make_func_wf(args: Seq<SToken>, toks: Seq<SToken>)
    ensures
        func_wf(make_func(args, toks)),
{
    let f = make_func(args, toks);
    assert forall|k: int| 0 <= k < f.positions.len() implies (#[trigger] f.positions[k] matches Some(a) ==> a < f.nargs) by {
        lemma_last_match_bound(args, toks[k], args.len() as int);
    }
}

impl DefineFunc {
    /// The function-like macro with parameters `args` and body `tokens`.
    pub fn new(args: Vec<Token>, tokens: Vec<Token>) -> (r: DefineFunc)
        ensures
            r@ == make_func(tokens_view(args@), tokens_view(tokens@)),
            func_wf(r@),
    {
        let mut positions: Vec<Option<usize>> = Vec::new();
        let mut k: usize = 0;
        while k < tokens.len()
            invariant
                k <= tokens.len(),
                positions.len() == k,
                forall|j: int| 0 <= j < k ==> #[trigger] positions@[j] == last_match(tokens_view(args@), tokens@[j]@, args.len() as int),
            decreases tokens.len() - k,
        {
            let mut pos: Option<usize> = None;
            let mut i: usize = 0;
            while i < args.len()
                invariant
                    k < tokens.len(),
                    i <= args.len(),
                    pos == last_match(tokens_view(args@), tokens@[k as int]@, i as int),
                decreases args.len() - i,
            {
                if args[i].same(&tokens[k]) {
                    pos = Some(i);
                }
                i = i + 1;
            }
            positions.push(pos);
            k = k + 1;
        }
        let r = DefineFunc { positions, nargs: args.len(), tokens };
        proof {
            lemma_make_func_wf(tokens_view(args@), tokens_view(r.tokens@));
            assert(r@.positions =~= make_func(tokens_view(args@), tokens_view(r.tokens@)).positions);
        }
        r
    }
}

/// One line of the source, or one `#ifdef` block, as the preprocessor reads it.
pub enum MacroSession {
    Define(Identifier, Define),
    Undefine(Identifier),
    IfDefine(Identifier, bool, Vec<MacroSession>, Vec<MacroSession>),
    Ignored,
    Empty,
    Normal(Vec<Token>),
    EmptyLine,
}

/// The mathematical model of a [`MacroSession`].
pub ghost enum SSession {
    Define(Seq<char>, SDefine),
    Undefine(Seq<char>),
    IfDefine(Seq<char>, bool, Seq<SSession>, Seq<SSession>),
    Ignored,
    Empty,
    Normal(Seq<SToken>),
    EmptyLine,
}

pub open spec fn view_session(m: MacroSession) -> SSession
    decreases m,
{
    match m {
        MacroSession::Define(k, d) => SSession::Define(k@, d@),
        MacroSession::Undefine(k) => SSession::Undefine(k@),
        MacroSession::IfDefine(k, b, p1, p2) => SSession::IfDefine(k@, b, view_sessions(p1@), view_sessions(p2@)),
        MacroSession::Ignored => SSession::Ignored,
        MacroSession::Empty => SSession::Empty,
        MacroSession::Normal(ts) => SSession::Normal(tokens_view(ts@)),
        MacroSession::EmptyLine => SSession::EmptyLine,
    }
}

pub open spec fn view_sessions(ms: Seq<MacroSession>) -> Seq<SSession>
    decreases ms,
{
    if ms.len() == 0 {
        Seq::empty()
    } else {
        view_sessions(ms.drop_last()).push(view_session(ms.last()))
    }
}

impl View for MacroSession {
    type V = SSession;

    open spec fn view(&self) -> SSession {
        view_session(*self)
    }
}

/// Every definition inside the session is well formed.
pub open spec fn session_wf(m: SSession) -> bool
    decreases m,
{
    match m {
        SSession::Define(_, d) => define_wf(d),
        SSession::IfDefine(_, _, p1, p2) => (forall|i: int| 0 <= i < p1.len() ==> session_wf(#[trigger] p1[i]))
            && (forall|i: int| 0 <= i < p2.len() ==> session_wf(#[trigger] p2[i])),
        _ => true,
    }
}

/// Every definition inside the sessions is well formed.
pub open spec fn sessions_wf(ms: Seq<SSession>) -> bool {
    forall|i: int| 0 <= i < ms.len() ==> session_wf(#[trigger] ms[i])
}

pub proof fn lemma_view_sessions_len(ms: Seq<MacroSession>)
    ensures
        view_sessions(ms).len() == ms.len(),
        forall|i: int| 0 <= i < ms.len() ==> #[trigger] view_sessions(ms)[i] == view_session(ms[i]),
    decreases ms.len(),
{
    if ms.len() > 0 {
        lemma_view_sessions_len(ms.drop_last());
    }
}

pub proof fn lemma_view_sessions_push(ms: Seq<MacroSession>, m: MacroSession)
    ensures
        view_sessions(ms.push(m)) == view_sessions(ms).push(view_session(m)),
{
    assert(ms.push(m).drop_last() =~= ms);
}

/// A session reading outcome: a session and the position after it, a
/// recoverable failure (another alternative may be tried), or an error that
/// aborts the whole reading (an `#ifdef` block without its `#endif`).
pub ghost enum SRead {
    Got(SSession, int),
    Error,
    Failure,
}

/// The outcome of reading a list of sessions.
pub ghost enum SReadList {
    Got(Seq<SSession>, int),
    Failure,
}

// ---------------------------------------------------------------------------
// Pieces of directives
// ---------------------------------------------------------------------------

/// `#` with blanks around it; the position after the trailing blanks.
pub open spec fn spe_hash(u: Seq<char>, p: int) -> Option<int> {
    let a = skip_blank(u, p);
    if has_tag(u, a, seq!['#']) {
        Some(skip_blank(u, a + 1))
    } else {
        None
    }
}

/// An identifier with blanks around it.
pub open spec fn spe_identifier(u: Seq<char>, p: int) -> Option<(Seq<char>, int)> {
    match spec_identifier(u, skip_blank(u, p)) {
        Some((w, e)) => Some((w, skip_blank(u, e))),
        None => None,
    }
}

/// A keyword matched without regard to ASCII case.
pub open spec fn tag_nc(u: Seq<char>, p: int, t: Seq<char>) -> Option<int> {
    if has_tag_nocase(u, p, t) {
        Some(p + t.len())
    } else {
        None
    }
}

fn spe_hash_at(u: &Vec<char>, p: usize) -> (r: Option<usize>)
    requires
        p <= u.len(),
    ensures
        match r {
            Some(q) => spe_hash(u@, p as int) == Some(q as int) && p < q <= u.len(),
            None => spe_hash(u@, p as int) is None,
        },
{
    let a = skip_blank_at(u, p);
    if a < u.len() && u[a] == '#' {
        assert(u@.subrange(a as int, a + 1) =~= seq!['#']);
        Some(skip_blank_at(u, a + 1))
    } else {
        proof {
            if has_tag(u@, a as int, seq!['#']) {
                assert(u@.subrange(a as int, a + 1)[0] == u@[a as int]);
            }
        }
        None
    }
}

fn spe_identifier_at(u: &Vec<char>, p: usize) -> (r: Option<(Identifier, usize)>)
    requires
        p <= u.len(),
    ensures
        match r {
            Some((w, q)) => spe_identifier(u@, p as int) == Some((w@, q as int)) && p < q <= u.len(),
            None => spe_identifier(u@, p as int) is None,
        },
{
    let a = skip_blank_at(u, p);
    match identifier(u, a) {
        Some((w, e)) => Some((w, skip_blank_at(u, e))),
        None => None,
    }
}

fn tag_nc_at(u: &Vec<char>, p: usize, t: &str) -> (r: Option<usize>)
    ensures
        match r {
            Some(q) => tag_nc(u@, p as int, t@) == Some(q as int) && q <= u.len(),
            None => tag_nc(u@, p as int, t@) is None,
        },
{
    let n = t.unicode_len();
    if tag_nocase_at(u, p, t) {
        let len = u.len();
        assert(p + n <= len);
        Some(p + n)
    } else {
        None
    }
}


// ---------------------------------------------------------------------------
// Directives
// ---------------------------------------------------------------------------

/// The keywords of ignored directives, tried in this order.
pub open spec fn ignored_kw_end(u: Seq<char>, a: int) -> Option<int> {
    match tag_nc(u, a, "error"@) {
        Some(b) => Some(b),
        None => match tag_nc(u, a, "pragma"@) {
            Some(b) => Some(b),
            None => match tag_nc(u, a, "extension"@) {
                Some(b) => Some(b),
                None => match tag_nc(u, a, "version"@) {
                    Some(b) => Some(b),
                    None => tag_nc(u, a, "line"@),
                },
            },
        },
    }
}

/// `# error|pragma|extension|version|line tokens...`: the position after the tokens.
pub open spec fn spec_ignored(u: Seq<char>, p: int) -> Option<int> {
    match spe_hash(u, p) {
        Some(a) => match ignored_kw_end(u, a) {
            Some(b) => Some(spec_tokens(u, b).1),
            None => None,
        },
        None => None,
    }
}

/// The name held by an identifier expression.
pub open spec fn ident_name(e: SExpr) -> Seq<char> {
    match e {
        SExpr::Identifier(w) => w,
        _ => Seq::empty(),
    }
}

/// All arguments are identifiers.
pub open spec fn all_idents(args: Seq<SExpr>) -> bool {
    forall|i: int| 0 <= i < args.len() ==> #[trigger] args[i] is Identifier
}

/// The parameters of a function-like macro, as identifier tokens.
pub open spec fn func_params(args: Seq<SExpr>) -> Seq<SToken> {
    Seq::new(args.len(), |i: int| SToken::Identifier(ident_name(args[i]), ident_name(args[i])))
}

/// The body of `#define`, read at `x`: when an expression reads as a call
/// whose arguments are all identifiers, a function-like macro whose body is the
/// tokens after that expression; otherwise a name and its replacement tokens.
pub open spec fn spec_define_body(u: Seq<char>, x: int) -> Option<(SSession, int)> {
    let fallback = match spe_identifier(u, x) {
        Some((k, k2)) => Some((SSession::Define(k, SDefine::Replace(spec_tokens(u, k2).0)), spec_tokens(u, k2).1)),
        None => None,
    };
    match spec_expression(u, x) {
        Some((e, i)) => match e {
            SExpr::FunctionCall(t, args) => if all_idents(args) && 0 <= i <= u.len() {
                Some(
                    (
                        SSession::Define(
                            basic_type_text(t),
                            SDefine::Func(make_func(func_params(args), spec_tokens(u, i).0)),
                        ),
                        spec_tokens(u, i).1,
                    ),
                )
            } else {
                fallback
            },
            _ => fallback,
        },
        None => fallback,
    }
}

/// `# define ...`
pub open spec fn spec_define(u: Seq<char>, p: int) -> Option<(SSession, int)> {
    match spe_hash(u, p) {
        Some(a) => match tag_nc(u, a, "define"@) {
            Some(a2) => match spec_define_body(u, skip_blank(u, a2)) {
                Some((m, d1)) => Some((m, skip_blank(u, d1))),
                None => None,
            },
            None => None,
        },
        None => None,
    }
}

/// `# undef name`
pub open spec fn spec_undef(u: Seq<char>, p: int) -> Option<(SSession, int)> {
    match spe_hash(u, p) {
        Some(a) => match tag_nc(u, a, "undef"@) {
            Some(a2) => match spe_identifier(u, a2) {
                Some((k, e)) => Some((SSession::Undefine(k), e)),
                None => None,
            },
            None => None,
        },
        None => None,
    }
}

/// The directives other than `#ifdef`, and token lines and blank lines, tried
/// in the order: ignored directive, `#define`, `#undef`, a lone `#`, tokens, blanks.
pub open spec fn spec_simple_macro(u: Seq<char>, p: int) -> Option<(SSession, int)> {
    match spec_ignored(u, p) {
        Some(e) => Some((SSession::Ignored, e)),
        None => match spec_define(u, p) {
            Some(x) => Some(x),
            None => match spec_undef(u, p) {
                Some(x) => Some(x),
                None => match spe_hash(u, p) {
                    Some(a) => Some((SSession::Empty, a)),
                    None => if spec_tokens(u, p).0.len() > 0 {
                        Some((SSession::Normal(spec_tokens(u, p).0), spec_tokens(u, p).1))
                    } else if skip_blank(u, p) > p {
                        Some((SSession::EmptyLine, skip_blank(u, p)))
                    } else {
                        None
                    },
                },
            },
        },
    }
}

/// One session at `p`: an `#ifdef`/`#ifndef` block first, then the other forms.
pub open spec fn spec_parse_macro(u: Seq<char>, p: int) -> SRead
    decreases u.len() - p, 3int,
{
    if !(0 <= p <= u.len()) {
        SRead::Error
    } else {
        match spec_ifdef(u, p) {
            SRead::Got(m, e) => SRead::Got(m, e),
            SRead::Failure => SRead::Failure,
            SRead::Error => match spec_simple_macro(u, p) {
                Some((m, e)) => SRead::Got(m, e),
                None => SRead::Error,
            },
        }
    }
}

/// `# ifdef|ifndef name` then lines, an optional `# else` part, then `# endif`.
/// Once the first line has been read, a missing `#` or `endif` at the end aborts
/// the whole reading.
pub open spec fn spec_ifdef(u: Seq<char>, p: int) -> SRead
    decreases u.len() - p, 2int,
{
    if !(0 <= p <= u.len()) {
        SRead::Error
    } else {
        match spe_hash(u, p) {
            None => SRead::Error,
            Some(a) => {
                let cond = match tag_nc(u, a, "ifdef"@) {
                    Some(c) => Some((true, c)),
                    None => match tag_nc(u, a, "ifndef"@) {
                        Some(c) => Some((false, c)),
                        None => None,
                    },
                };
                match cond {
                    None => SRead::Error,
                    Some((b, c)) => match spe_identifier(u, c) {
                        None => SRead::Error,
                        Some((key, k2)) => match line_ending(u, k2) {
                            None => SRead::Error,
                            Some(l) => if !(p < l <= u.len()) {
                                SRead::Error
                            } else {
                                match spec_session_lines(u, l, Seq::empty()) {
                                    SReadList::Failure => SRead::Failure,
                                    SReadList::Got(part1, y) => if !(l <= y <= u.len()) {
                                        SRead::Error
                                    } else {
                                        let els = spec_else_part(u, y);
                                        let (part2, y2, failed) = match els {
                                            Some(SReadList::Got(tts, y2)) => (tts, y2, false),
                                            Some(SReadList::Failure) => (Seq::empty(), y, true),
                                            None => (Seq::empty(), y, false),
                                        };
                                        if failed {
                                            SRead::Failure
                                        } else {
                                            let a1 = skip_blank(u, y2);
                                            if !has_tag(u, a1, seq!['#']) {
                                                SRead::Failure
                                            } else {
                                                match tag_nc(u, skip_blank(u, a1 + 1), "endif"@) {
                                                    None => SRead::Failure,
                                                    Some(c1) => SRead::Got(
                                                        SSession::IfDefine(key, b, part1, part2),
                                                        skip_blank(u, c1),
                                                    ),
                                                }
                                            }
                                        }
                                    },
                                }
                            },
                        },
                    },
                }
            },
        }
    }
}

/// The optional `# else` line and the lines after it.
pub open spec fn spec_else_part(u: Seq<char>, y: int) -> Option<SReadList>
    decreases u.len() - y, 1int,
{
    if !(0 <= y <= u.len()) {
        None
    } else {
        match spe_hash(u, y) {
            Some(z) => match tag_nc(u, skip_blank(u, z), "else"@) {
                Some(z1) => match line_ending(u, skip_blank(u, z1)) {
                    Some(w) => if y < w <= u.len() {
                        Some(spec_session_lines(u, w, Seq::empty()))
                    } else {
                        None
                    },
                    None => None,
                },
                None => None,
            },
            None => None,
        }
    }
}

/// Sessions each followed by a line break, from `x`, after the sessions `acc`.
pub open spec fn spec_session_lines(u: Seq<char>, x: int, acc: Seq<SSession>) -> SReadList
    decreases u.len() - x, 4int,
{
    if !(0 <= x <= u.len()) {
        SReadList::Got(acc, x)
    } else {
        match spec_parse_macro(u, x) {
            SRead::Failure => SReadList::Failure,
            SRead::Error => SReadList::Got(acc, x),
            SRead::Got(m, x1) => match line_ending(u, x1) {
                Some(x2) => if x < x2 <= u.len() {
                    spec_session_lines(u, x2, acc.push(m))
                } else {
                    SReadList::Got(acc, x)
                },
                None => SReadList::Got(acc, x),
            },
        }
    }
}

/// A last session not followed by a line break, if one can be read at `x`.
pub open spec fn spec_read_last(u: Seq<char>, x: int, acc: Seq<SSession>) -> SReadList {
    match spec_parse_macro(u, x) {
        SRead::Got(m, _) => SReadList::Got(acc.push(m), x),
        SRead::Error => SReadList::Got(acc, x),
        SRead::Failure => SReadList::Failure,
    }
}

/// All sessions of the text from `x`: empty lines and sessions each followed by
/// a line break, then one more session if one can be read. Text after that is
/// not read.
pub open spec fn spec_read_all(u: Seq<char>, x: int, acc: Seq<SSession>) -> SReadList
    decreases u.len() - x,
{
    if !(0 <= x <= u.len()) {
        SReadList::Got(acc, x)
    } else {
        match line_ending(u, x) {
            Some(e) => if x < e <= u.len() {
                spec_read_all(u, e, acc.push(SSession::EmptyLine))
            } else {
                SReadList::Got(acc, x)
            },
            None => match spec_parse_macro(u, x) {
                SRead::Failure => SReadList::Failure,
                SRead::Error => spec_read_last(u, x, acc),
                SRead::Got(m, x1) => match line_ending(u, x1) {
                    Some(x2) => if x < x2 <= u.len() {
                        spec_read_all(u, x2, acc.push(m))
                    } else {
                        spec_read_last(u, x, acc)
                    },
                    None => spec_read_last(u, x, acc),
                },
            },
        }
    }
}


// ---------------------------------------------------------------------------
// Executable readers
// ---------------------------------------------------------------------------

/// The outcome of reading one session.
pub enum ReadOutcome {
    Got(MacroSession, usize),
    Error,
    Failure,
}

/// The outcome of reading a list of sessions.
pub enum ReadListOutcome {
    Got(Vec<MacroSession>, usize),
    Failure,
}

pub open spec fn read_view(r: ReadOutcome) -> SRead {
    match r {
        ReadOutcome::Got(m, q) => SRead::Got(m@, q as int),
        ReadOutcome::Error => SRead::Error,
        ReadOutcome::Failure => SRead::Failure,
    }
}

pub open spec fn list_view(r: ReadListOutcome) -> SReadList {
    match r {
        ReadListOutcome::Got(ms, q) => SReadList::Got(view_sessions(ms@), q as int),
        ReadListOutcome::Failure => SReadList::Failure,
    }
}

pub open spec fn opt_session(r: Option<(MacroSession, usize)>) -> Option<(SSession, int)> {
    match r {
        Some((m, q)) => Some((m@, q as int)),
        None => None,
    }
}

fn ignored_kw_end_at(u: &Vec<char>, a: usize) -> (r: Option<usize>)
    ensures
        match r {
            Some(b) => ignored_kw_end(u@, a as int) == Some(b as int) && b <= u.len(),
            None => ignored_kw_end(u@, a as int) is None,
        },
{
    match tag_nc_at(u, a, "error") {
        Some(b) => Some(b),
        None => match tag_nc_at(u, a, "pragma") {
            Some(b) => Some(b),
            None => match tag_nc_at(u, a, "extension") {
                Some(b) => Some(b),
                None => match tag_nc_at(u, a, "version") {
                    Some(b) => Some(b),
                    None => tag_nc_at(u, a, "line"),
                },
            },
        },
    }
}

fn ignored_at(u: &Vec<char>, p: usize) -> (r: Option<usize>)
    requires
        p <= u.len(),
    ensures
        match r {
            Some(e) => spec_ignored(u@, p as int) == Some(e as int) && e <= u.len(),
            None => spec_ignored(u@, p as int) is None,
        },
{
    match spe_hash_at(u, p) {
        Some(a) => match ignored_kw_end_at(u, a) {
            Some(b) => {
                let (_ts, e) = tokens(u, b);
                Some(e)
            },
            None => None,
        },
        None => None,
    }
}

fn define_body_at(u: &Vec<char>, x: usize) -> (r: Option<(MacroSession, usize)>)
    requires
        x <= u.len(),
    ensures
        opt_session(r) == spec_define_body(u@, x as int),
        r matches Some((m, q)) ==> q <= u.len() && session_wf(m@),
{
    match expression(u, x) {
        Some((e, i)) => {
            match e {
                Expression::FunctionCall(t, args) => {
                    if i <= u.len() {
                        proof {
                            lemma_view_exprs_len(args@);
                        }
                        let ghost va = view_exprs(args@);
                        let mut params: Vec<Token> = Vec::new();
                        let mut ok = true;
                        let mut j: usize = 0;
                        while j < args.len()
                            invariant
                                j <= args.len(),
                                va == view_exprs(args@),
                                va.len() == args.len(),
                                forall|k: int| 0 <= k < args.len() ==> #[trigger] va[k] == args@[k]@,
                                ok == (forall|k: int| 0 <= k < j ==> #[trigger] va[k] is Identifier),
                                ok ==> params@.len() == j,
                                ok ==> forall|k: int| 0 <= k < j ==> #[trigger] params@[k]@ == SToken::Identifier(ident_name(va[k]), ident_name(va[k])),
                            decreases args.len() - j,
                        {
                            let ghost vj = args@[j as int]@;
                            match &args[j] {
                                Expression::Identifier(a) => {
                                    assert(vj == SExpr::Identifier(a@));
                                    params.push(Token::Identifier(a.clone(), a.clone()));
                                },
                                _ => {
                                    assert(!(vj is Identifier));
                                    ok = false;
                                },
                            }
                            assert(va[j as int] == vj);
                            j = j + 1;
                        }
                        if ok {
                            proof {
                                assert(all_idents(va));
                                assert(tokens_view(params@) =~= func_params(va));
                            }
                            let (ts, r) = tokens(u, i);
                            let name = t.to_string();
                            return Some((MacroSession::Define(name, Define::Func(DefineFunc::new(params, ts))), r));
                        }
                    }
                },
                _ => {},
            }
        },
        None => {},
    }
    match spe_identifier_at(u, x) {
        Some((k, k2)) => {
            let (ts, r) = tokens(u, k2);
            Some((MacroSession::Define(k, Define::Replace(ts)), r))
        },
        None => None,
    }
}

fn define_at(u: &Vec<char>, p: usize) -> (r: Option<(MacroSession, usize)>)
    requires
        p <= u.len(),
    ensures
        opt_session(r) == spec_define(u@, p as int),
        r matches Some((m, q)) ==> q <= u.len() && session_wf(m@),
{
    match spe_hash_at(u, p) {
        Some(a) => match tag_nc_at(u, a, "define") {
            Some(a2) => {
                let d0 = skip_blank_at(u, a2);
                match define_body_at(u, d0) {
                    Some((m, d1)) => Some((m, skip_blank_at(u, d1))),
                    None => None,
                }
            },
            None => None,
        },
        None => None,
    }
}

fn undef_at(u: &Vec<char>, p: usize) -> (r: Option<(MacroSession, usize)>)
    requires
        p <= u.len(),
    ensures
        opt_session(r) == spec_undef(u@, p as int),
        r matches Some((m, q)) ==> q <= u.len() && session_wf(m@),
{
    match spe_hash_at(u, p) {
        Some(a) => match tag_nc_at(u, a, "undef") {
            Some(a2) => match spe_identifier_at(u, a2) {
                Some((k, e)) => Some((MacroSession::Undefine(k), e)),
                None => None,
            },
            None => None,
        },
        None => None,
    }
}

fn simple_macro_at(u: &Vec<char>, p: usize) -> (r: Option<(MacroSession, usize)>)
    requires
        p <= u.len(),
    ensures
        opt_session(r) == spec_simple_macro(u@, p as int),
        r matches Some((m, q)) ==> q <= u.len() && session_wf(m@),
{
    match ignored_at(u, p) {
        Some(e) => {
            return Some((MacroSession::Ignored, e));
        },
        None => {},
    }
    match define_at(u, p) {
        Some(x) => {
            return Some(x);
        },
        None => {},
    }
    match undef_at(u, p) {
        Some(x) => {
            return Some(x);
        },
        None => {},
    }
    match spe_hash_at(u, p) {
        Some(a) => {
            return Some((MacroSession::Empty, a));
        },
        None => {},
    }
    let (ts, e) = tokens(u, p);
    if ts.len() > 0 {
        return Some((MacroSession::Normal(ts), e));
    }
    let b = skip_blank_at(u, p);
    if b > p {
        Some((MacroSession::EmptyLine, b))
    } else {
        None
    }
}

/// Reads one session at `p` (see [`spec_parse_macro`]).
pub fn parse_macro(u: &Vec<char>, p: usize) -> (r: ReadOutcome)
    requires
        p <= u.len(),
    ensures
        read_view(r) == spec_parse_macro(u@, p as int),
        r matches ReadOutcome::Got(m, q) ==> q <= u.len() && session_wf(m@),
    decreases u.len() - p, 3int,
{
    match ifdef_at(u, p) {
        ReadOutcome::Got(m, e) => ReadOutcome::Got(m, e),
        ReadOutcome::Failure => ReadOutcome::Failure,
        ReadOutcome::Error => match simple_macro_at(u, p) {
            Some((m, e)) => ReadOutcome::Got(m, e),
            None => ReadOutcome::Error,
        },
    }
}

fn ifdef_at(u: &Vec<char>, p: usize) -> (r: ReadOutcome)
    requires
        p <= u.len(),
    ensures
        read_view(r) == spec_ifdef(u@, p as int),
        r matches ReadOutcome::Got(m, q) ==> q <= u.len() && session_wf(m@),
    decreases u.len() - p, 2int,
{
    let a = match spe_hash_at(u, p) {
        Some(a) => a,
        None => {
            return ReadOutcome::Error;
        },
    };
    let (b, c) = match tag_nc_at(u, a, "ifdef") {
        Some(c) => (true, c),
        None => match tag_nc_at(u, a, "ifndef") {
            Some(c) => (false, c),
            None => {
                return ReadOutcome::Error;
            },
        },
    };
    let (key, k2) = match spe_identifier_at(u, c) {
        Some(x) => x,
        None => {
            return ReadOutcome::Error;
        },
    };
    let l = match line_ending_at(u, k2) {
        Some(l) => l,
        None => {
            return ReadOutcome::Error;
        },
    };
    if !(p < l && l <= u.len()) {
        return ReadOutcome::Error;
    }
    let e0: Vec<MacroSession> = Vec::new();
    proof {
        assert(view_sessions(e0@) =~= Seq::<SSession>::empty());
    }
    let (part1, y) = match session_lines(u, l, e0) {
        ReadListOutcome::Failure => {
            return ReadOutcome::Failure;
        },
        ReadListOutcome::Got(ms, y) => (ms, y),
    };
    if !(l <= y && y <= u.len()) {
        return ReadOutcome::Error;
    }
    let (part2, y2): (Vec<MacroSession>, usize) = match else_part_at(u, y) {
        Some(ReadListOutcome::Got(tts, y2)) => (tts, y2),
        Some(ReadListOutcome::Failure) => {
            return ReadOutcome::Failure;
        },
        None => {
            let v: Vec<MacroSession> = Vec::new();
            proof {
                assert(view_sessions(v@) =~= Seq::<SSession>::empty());
            }
            (v, y)
        },
    };
    let a1 = skip_blank_at(u, y2);
    if !(a1 < u.len() && u[a1] == '#') {
        proof {
            if has_tag(u@, a1 as int, seq!['#']) {
                assert(u@.subrange(a1 as int, a1 + 1)[0] == u@[a1 as int]);
            }
        }
        return ReadOutcome::Failure;
    }
    assert(u@.subrange(a1 as int, a1 + 1) =~= seq!['#']);
    let b1 = skip_blank_at(u, a1 + 1);
    match tag_nc_at(u, b1, "endif") {
        None => ReadOutcome::Failure,
        Some(c1) => ReadOutcome::Got(MacroSession::IfDefine(key, b, part1, part2), skip_blank_at(u, c1)),
    }
}

fn else_part_at(u: &Vec<char>, y: usize) -> (r: Option<ReadListOutcome>)
    requires
        y <= u.len(),
    ensures
        match r {
            Some(l) => spec_else_part(u@, y as int) == Some(list_view(l)) && (l matches ReadListOutcome::Got(ms, q) ==> y <= q <= u.len() && sessions_wf(view_sessions(ms@))),
            None => spec_else_part(u@, y as int) is None,
        },
    decreases u.len() - y, 1int,
{
    match spe_hash_at(u, y) {
        Some(z) => {
            let z0 = skip_blank_at(u, z);
            match tag_nc_at(u, z0, "else") {
                Some(z1) => {
                    let z2 = skip_blank_at(u, z1);
                    match line_ending_at(u, z2) {
                        Some(w) => {
                            if y < w && w <= u.len() {
                                let e0: Vec<MacroSession> = Vec::new();
                                proof {
                                    assert(view_sessions(e0@) =~= Seq::<SSession>::empty());
                                }
                                let r = session_lines(u, w, e0);
                                Some(r)
                            } else {
                                None
                            }
                        },
                        None => None,
                    }
                },
                None => None,
            }
        },
        None => None,
    }
}

fn session_lines(u: &Vec<char>, x0: usize, acc0: Vec<MacroSession>) -> (r: ReadListOutcome)
    requires
        x0 <= u.len(),
        sessions_wf(view_sessions(acc0@)),
    ensures
        list_view(r) == spec_session_lines(u@, x0 as int, view_sessions(acc0@)),
        r matches ReadListOutcome::Got(ms, q) ==> x0 <= q <= u.len() && sessions_wf(view_sessions(ms@)),
    decreases u.len() - x0, 4int,
{
    let mut acc = acc0;
    let mut x = x0;
    loop
        invariant
            x0 <= x <= u.len(),
            spec_session_lines(u@, x0 as int, view_sessions(acc0@)) == spec_session_lines(u@, x as int, view_sessions(acc@)),
            sessions_wf(view_sessions(acc@)),
        decreases u.len() - x,
    {
        match parse_macro(u, x) {
            ReadOutcome::Failure => {
                return ReadListOutcome::Failure;
            },
            ReadOutcome::Error => {
                return ReadListOutcome::Got(acc, x);
            },
            ReadOutcome::Got(m, x1) => match line_ending_at(u, x1) {
                Some(x2) => {
                    if x < x2 && x2 <= u.len() {
                        proof {
                            lemma_view_sessions_push(acc@, m);
                        }
                        acc.push(m);
                        x = x2;
                    } else {
                        return ReadListOutcome::Got(acc, x);
                    }
                },
                None => {
                    return ReadListOutcome::Got(acc, x);
                },
            },
        }
    }
}

fn read_last(u: &Vec<char>, x: usize, acc: Vec<MacroSession>) -> (r: ReadListOutcome)
    requires
        x <= u.len(),
        sessions_wf(view_sessions(acc@)),
    ensures
        list_view(r) == spec_read_last(u@, x as int, view_sessions(acc@)),
        r matches ReadListOutcome::Got(ms, _) ==> sessions_wf(view_sessions(ms@)),
{
    match parse_macro(u, x) {
        ReadOutcome::Got(m, _) => {
            let mut acc = acc;
            proof {
                lemma_view_sessions_push(acc@, m);
            }
            acc.push(m);
            ReadListOutcome::Got(acc, x)
        },
        ReadOutcome::Error => ReadListOutcome::Got(acc, x),
        ReadOutcome::Failure => ReadListOutcome::Failure,
    }
}

/// Reads all sessions of the text `u` (see [`spec_read_all`]).
pub fn read_all(u: &Vec<char>) -> (r: ReadListOutcome)
    ensures
        list_view(r) == spec_read_all(u@, 0, Seq::empty()),
        r matches ReadListOutcome::Got(ms, _) ==> sessions_wf(view_sessions(ms@)),
{
    let mut acc: Vec<MacroSession> = Vec::new();
    let mut x: usize = 0;
    proof {
        assert(view_sessions(acc@) =~= Seq::<SSession>::empty());
    }
    loop
        invariant
            x <= u.len(),
            spec_read_all(u@, 0, Seq::empty()) == spec_read_all(u@, x as int, view_sessions(acc@)),
            sessions_wf(view_sessions(acc@)),
        decreases u.len() - x,
    {
        match line_ending_at(u, x) {
            Some(e) => {
                proof {
                    lemma_view_sessions_push(acc@, MacroSession::EmptyLine);
                }
                acc.push(MacroSession::EmptyLine);
                x = e;
            },
            None => match parse_macro(u, x) {
                ReadOutcome::Failure => {
                    return ReadListOutcome::Failure;
                },
                ReadOutcome::Error => {
                    return read_last(u, x, acc);
                },
                ReadOutcome::Got(m, x1) => match line_ending_at(u, x1) {
                    Some(x2) => {
                        if x < x2 && x2 <= u.len() {
                            proof {
                                lemma_view_sessions_push(acc@, m);
                            }
                            acc.push(m);
                            x = x2;
                        } else {
                            return read_last(u, x, acc);
                        }
                    },
                    None => {
                        return read_last(u, x, acc);
                    },
                },
            },
        }
    }
}

/// An `#ifdef` block runs its first part when its name is defined, an
/// `#ifndef` block when it is not: the flag read is true exactly when the
/// directive is spelled `ifdef`.
pub proof fn law_ifdef_flag_is_its_keyword(u: Seq<char>, p: int)
    ensures
        spec_ifdef(u, p) matches SRead::Got(m, _) ==> (m matches SSession::IfDefine(_, b, _, _)
            && spe_hash(u, p) matches Some(a)
            && (if b {
                tag_nc(u, a, "ifdef"@) is Some
            } else {
                tag_nc(u, a, "ifdef"@) is None && tag_nc(u, a, "ifndef"@) is Some
            })),
{
}

} // verus!
