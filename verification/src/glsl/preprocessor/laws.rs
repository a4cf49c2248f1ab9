//! What holds of the preprocessor as a whole.
use vstd::prelude::*;
use crate::glsl::token::SToken;
use crate::glsl::preprocessor::session::{SDefine, SSession, SRead, spec_parse_macro};
use crate::glsl::preprocessor::state::{SState, empty_state};
use crate::glsl::preprocessor::expand::{
    spec_source_from, spec_source_line, spec_expand, spec_expand_fuel, expand_ends, lemma_expand_fuel_unique,
};
use crate::glsl::preprocessor::process::{spec_session, spec_sessions_from, out_texts, spec_run, predef_line, spec_predefs};

verus! {

/// No token of `ts` is an identifier that names a macro of `defs`.
pub open spec fn expands_nothing(defs: Map<Seq<char>, SDefine>, ts: Seq<SToken>) -> bool {
    forall|j: int| 0 <= j < ts.len() ==> !(#[trigger] ts[j] matches SToken::Identifier(n, _) && defs.contains_key(n))
}

proof fn lemma_source_from_copies(
    defs: Map<Seq<char>, SDefine>,
    ts: Seq<SToken>,
    j: int,
    p: bool,
    acc: Seq<SToken>,
)
    requires
        expands_nothing(defs, ts),
        0 <= j <= ts.len(),
    ensures
        spec_source_from(defs, ts, j, p, acc) == Some(Ok::<(bool, Seq<SToken>), Seq<char>>((p, acc + ts.subrange(j, ts.len() as int)))),
    decreases ts.len() - j,
{
    if j < ts.len() {
        assert(!(ts[j] matches SToken::Identifier(n, _) && defs.contains_key(n)));
        lemma_source_from_copies(defs, ts, j + 1, p, acc.push(ts[j]));
        assert(acc.push(ts[j]) + ts.subrange(j + 1, ts.len() as int) =~= acc + ts.subrange(j, ts.len() as int));
    } else {
        assert(acc + ts.subrange(j, ts.len() as int) =~= acc);
    }
}

/// A line in which no identifier names a macro is expanded to itself.
pub proof fn law_line_without_macros_unchanged(defs: Map<Seq<char>, SDefine>, ts: Seq<SToken>)
    requires
        expands_nothing(defs, ts),
    ensures
        spec_source_line(defs, ts) == Some(Ok::<(bool, Seq<SToken>), Seq<char>>((false, ts))),
        spec_expand(defs, ts) == Some(Ok::<Seq<SToken>, Seq<char>>(ts)),
{
    lemma_source_from_copies(defs, ts, 0, false, Seq::empty());
    assert(Seq::<SToken>::empty() + ts.subrange(0, ts.len() as int) =~= ts);
    assert(spec_expand_fuel(defs, ts, 0) == Some(Ok::<Seq<SToken>, Seq<char>>(ts)));
    assert(expand_ends(defs, ts));
    let n = choose|fuel: nat| #[trigger] spec_expand_fuel(defs, ts, fuel) is Some;
    lemma_expand_fuel_unique(defs, ts, 0, n);
}

/// A token line in which no identifier names a macro is put out as it is,
/// followed by a line break, and changes no definition.
pub proof fn law_plain_line_copied(st: SState, ts: Seq<SToken>)
    requires
        expands_nothing(st.defines, ts),
    ensures
        spec_session(st, SSession::Normal(ts)) == Some(
            Ok::<SState, Seq<char>>(
                SState { defines: st.defines, normal_tokens: st.normal_tokens + out_texts(ts) + seq![seq!['\n']] },
            ),
        ),
{
    law_line_without_macros_unchanged(st.defines, ts);
}

/// A name defined as a replacement list whose tokens name no macro expands to
/// exactly that list.
pub proof fn law_object_macro_expands_to_body(defs: Map<Seq<char>, SDefine>, k: Seq<char>, spelling: Seq<char>, body: Seq<SToken>)
    requires
        defs.contains_key(k),
        defs[k] == SDefine::Replace(body),
        expands_nothing(defs, body),
    ensures
        spec_expand(defs, seq![SToken::Identifier(k, spelling)]) == Some(Ok::<Seq<SToken>, Seq<char>>(body)),
{
    let ts = seq![SToken::Identifier(k, spelling)];
    assert(Seq::<SToken>::empty() + body =~= body);
    assert(spec_source_from(defs, ts, 1, true, body) == Some(Ok::<(bool, Seq<SToken>), Seq<char>>((true, body))));
    assert(spec_source_line(defs, ts) == Some(Ok::<(bool, Seq<SToken>), Seq<char>>((true, body))));
    law_line_without_macros_unchanged(defs, body);
    lemma_source_from_copies(defs, body, 0, false, Seq::empty());
    assert(Seq::<SToken>::empty() + body.subrange(0, body.len() as int) =~= body);
    assert(spec_expand_fuel(defs, body, 0) == Some(Ok::<Seq<SToken>, Seq<char>>(body)));
    assert(spec_expand_fuel(defs, ts, 1) == Some(Ok::<Seq<SToken>, Seq<char>>(body)));
    assert(expand_ends(defs, ts));
    let n = choose|fuel: nat| #[trigger] spec_expand_fuel(defs, ts, fuel) is Some;
    lemma_expand_fuel_unique(defs, ts, 1, n);
}

/// `#ifdef K` with parts A and B runs as `#ifndef K` with parts B and A.
pub proof fn law_ifdef_ifndef_dual(st: SState, k: Seq<char>, p1: Seq<SSession>, p2: Seq<SSession>)
    ensures
        spec_session(st, SSession::IfDefine(k, true, p1, p2)) == spec_session(st, SSession::IfDefine(k, false, p2, p1)),
{
}

/// `#ifdef K` runs its first part exactly when `K` is defined, and its second
/// part otherwise.
pub proof fn law_ifdef_branch(st: SState, k: Seq<char>, p1: Seq<SSession>, p2: Seq<SSession>)
    ensures
        st.defines.contains_key(k) ==> spec_session(st, SSession::IfDefine(k, true, p1, p2)) == spec_sessions_from(st, p1, 0),
        !st.defines.contains_key(k) ==> spec_session(st, SSession::IfDefine(k, true, p1, p2)) == spec_sessions_from(st, p2, 0),
{
}

proof fn lemma_sessions_after_removed(st: SState, ms: Seq<SSession>, j: int, k: int)
    requires
        0 <= j < ms.len(),
        j <= k <= ms.len() - 1,
    ensures
        spec_sessions_from(st, ms, k + 1) == spec_sessions_from(st, ms.remove(j), k),
    decreases ms.len() - k,
{
    let rm = ms.remove(j);
    if k < ms.len() - 1 {
        assert(rm[k] == ms[k + 1]);
        match spec_session(st, ms[k + 1]) {
            Some(Ok(st2)) => lemma_sessions_after_removed(st2, ms, j, k + 1),
            _ => {},
        }
    }
}

proof fn lemma_sessions_before_removed(st: SState, ms: Seq<SSession>, j: int, i: int)
    requires
        0 <= i <= j < ms.len(),
        ms[j] is Ignored,
    ensures
        spec_sessions_from(st, ms, i) == spec_sessions_from(st, ms.remove(j), i),
    decreases j - i,
{
    let rm = ms.remove(j);
    if i < j {
        assert(rm[i] == ms[i]);
        match spec_session(st, ms[i]) {
            Some(Ok(st2)) => lemma_sessions_before_removed(st2, ms, j, i + 1),
            _ => {},
        }
    } else {
        assert(spec_session(st, ms[j]) == Some(Ok::<SState, Seq<char>>(st)));
        lemma_sessions_after_removed(st, ms, j, j);
    }
}

/// An ignored directive (`#version`, `#pragma`, `#extension`, `#line`,
/// `#error`) changes nothing: a run of sessions without it gives what the run
/// with it gives.
pub proof fn law_ignored_directive_removable(st: SState, ms: Seq<SSession>, j: int)
    requires
        0 <= j < ms.len(),
        ms[j] is Ignored,
    ensures
        spec_sessions_from(st, ms, 0) == spec_sessions_from(st, ms.remove(j), 0),
{
    lemma_sessions_before_removed(st, ms, j, 0);
}

proof fn lemma_sessions_after_first(st: SState, m: SSession, ms: Seq<SSession>, i: int)
    requires
        0 <= i <= ms.len(),
    ensures
        spec_sessions_from(st, seq![m] + ms, i + 1) == spec_sessions_from(st, ms, i),
    decreases ms.len() - i,
{
    let all = seq![m] + ms;
    if i < ms.len() {
        assert(all[i + 1] == ms[i]);
        match spec_session(st, ms[i]) {
            Some(Ok(st2)) => lemma_sessions_after_first(st2, m, ms, i + 1),
            _ => {},
        }
    }
}

/// A predefined macro `k` with the text `v` is defined as the line
/// `#define k v` defines it: preprocessing with that one predefinition runs
/// as preprocessing with none, with the definition read from that line put
/// in front of the sessions.
pub proof fn law_predefinition_is_define_line(k: Seq<char>, v: Seq<char>, ms: Seq<SSession>)
    requires
        spec_parse_macro(predef_line(k, v), 0) matches SRead::Got(SSession::Define(_, _), _),
    ensures
        spec_parse_macro(predef_line(k, v), 0) matches SRead::Got(d, _)
            && spec_run(seq![(k, v)], ms) == spec_run(Seq::empty(), seq![d] + ms),
{
    if let SRead::Got(d, _) = spec_parse_macro(predef_line(k, v), 0) {
        if let SSession::Define(name, def) = d {
            let st1 = SState { defines: empty_state().defines.insert(name, def), normal_tokens: empty_state().normal_tokens };
            assert(spec_session(empty_state(), d) == Some(Ok::<SState, Seq<char>>(st1)));
            assert((seq![d] + ms)[0] == d);
            lemma_sessions_after_first(st1, d, ms, 0);
            let pd = seq![(k, v)];
            assert(pd[0] == (k, v));
            assert(spec_predefs(st1, pd, 1) == Ok::<SState, Seq<char>>(st1));
            assert(spec_predefs(empty_state(), pd, 0) == Ok::<SState, Seq<char>>(st1));
            assert(spec_predefs(empty_state(), Seq::empty(), 0) == Ok::<SState, Seq<char>>(empty_state()));
            assert(spec_sessions_from(empty_state(), seq![d] + ms, 0) == spec_sessions_from(st1, seq![d] + ms, 1));
        }
    }
}

proof fn lemma_sessions_suffix(st: SState, x: Seq<SSession>, y: Seq<SSession>, j: int)
    requires
        0 <= j <= y.len(),
    ensures
        spec_sessions_from(st, x + y, x.len() + j) == spec_sessions_from(st, y, j),
    decreases y.len() - j,
{
    if j < y.len() {
        assert((x + y)[x.len() + j] == y[j]);
        match spec_session(st, y[j]) {
            Some(Ok(st2)) => lemma_sessions_suffix(st2, x, y, j + 1),
            _ => {},
        }
    }
}

/// Running `x + y` is running `x`, then, if that succeeds, `y`.
proof fn lemma_sessions_concat(st: SState, x: Seq<SSession>, y: Seq<SSession>, i: int)
    requires
        0 <= i <= x.len(),
    ensures
        spec_sessions_from(st, x + y, i) == match spec_sessions_from(st, x, i) {
            Some(Ok(st2)) => spec_sessions_from(st2, y, 0),
            other => other,
        },
    decreases x.len() - i,
{
    if i < x.len() {
        assert((x + y)[i] == x[i]);
        match spec_session(st, x[i]) {
            Some(Ok(st2)) => lemma_sessions_concat(st2, x, y, i + 1),
            _ => {},
        }
    } else {
        lemma_sessions_suffix(st, x, y, 0);
    }
}

/// An `#ifdef` (or, with `b` false, `#ifndef`) block among other sessions
/// runs as the part it takes put in its place: its first part when whether
/// `K` is defined in `st_b`, the state the sessions before it end in, is `b`,
/// else its second part.
pub proof fn law_ifdef_block_is_branch_taken(
    st: SState,
    before: Seq<SSession>,
    k: Seq<char>,
    b: bool,
    p1: Seq<SSession>,
    p2: Seq<SSession>,
    after: Seq<SSession>,
    st_b: SState,
)
    requires
        spec_sessions_from(st, before, 0) == Some(Ok::<SState, Seq<char>>(st_b)),
    ensures
        ({
            let taken = if st_b.defines.contains_key(k) == b { p1 } else { p2 };
            spec_sessions_from(st, before + seq![SSession::IfDefine(k, b, p1, p2)] + after, 0)
                == spec_sessions_from(st, before + taken + after, 0)
        }),
{
    let taken = if st_b.defines.contains_key(k) == b { p1 } else { p2 };
    let blk = seq![SSession::IfDefine(k, b, p1, p2)];
    assert(before + blk + after =~= before + (blk + after));
    assert(before + taken + after =~= before + (taken + after));
    lemma_sessions_concat(st, before, blk + after, 0);
    lemma_sessions_concat(st, before, taken + after, 0);
    lemma_sessions_concat(st_b, blk, after, 0);
    lemma_sessions_concat(st_b, taken, after, 0);
    assert(blk[0] == SSession::IfDefine(k, b, p1, p2));
    assert(spec_session(st_b, blk[0]) == spec_sessions_from(st_b, taken, 0));
    match spec_sessions_from(st_b, taken, 0) {
        Some(Ok(st2)) => {
            assert(spec_sessions_from(st2, blk, 1) == Some(Ok::<SState, Seq<char>>(st2)));
        },
        _ => {},
    }
}

/// A definition followed by the removal of the same name leaves the name
/// undefined, the other definitions and the output as they were.
pub proof fn law_undef_cancels_define(st: SState, k: Seq<char>, d: SDefine)
    ensures
        spec_sessions_from(st, seq![SSession::Define(k, d), SSession::Undefine(k)], 0) == Some(
            Ok::<SState, Seq<char>>(SState { defines: st.defines.remove(k), normal_tokens: st.normal_tokens }),
        ),
{
    let ms = seq![SSession::Define(k, d), SSession::Undefine(k)];
    let st1 = SState { defines: st.defines.insert(k, d), normal_tokens: st.normal_tokens };
    let st2 = SState { defines: st1.defines.remove(k), normal_tokens: st.normal_tokens };
    assert(st1.defines.remove(k) =~= st.defines.remove(k));
    assert(spec_session(st, ms[0]) == Some(Ok::<SState, Seq<char>>(st1)));
    assert(spec_session(st1, ms[1]) == Some(Ok::<SState, Seq<char>>(st2)));
    assert(spec_sessions_from(st2, ms, 2) == Some(Ok::<SState, Seq<char>>(st2)));
    assert(spec_sessions_from(st1, ms, 1) == Some(Ok::<SState, Seq<char>>(st2)));
}

/// `prefix` is a prefix of `s`.
pub open spec fn is_prefix(prefix: Seq<Seq<char>>, s: Seq<Seq<char>>) -> bool {
    prefix.len() <= s.len() && s.subrange(0, prefix.len() as int) == prefix
}

/// Running a session only ever adds to the output: what was put out stays.
pub proof fn law_session_output_grows(st: SState, m: SSession)
    ensures
        spec_session(st, m) matches Some(Ok(st2)) ==> is_prefix(st.normal_tokens, st2.normal_tokens),
    decreases m, 0int,
{
    match m {
        SSession::IfDefine(k, b, p1, p2) => {
            law_sessions_output_grow(st, p1, 0);
            law_sessions_output_grow(st, p2, 0);
        },
        SSession::Normal(ts) => {
            match spec_expand(st.defines, ts) {
                Some(Ok(out)) => {
                    let n2 = st.normal_tokens + out_texts(out) + seq![seq!['\n']];
                    assert(n2.subrange(0, st.normal_tokens.len() as int) =~= st.normal_tokens);
                },
                _ => {},
            }
        },
        _ => {
            assert(st.normal_tokens.subrange(0, st.normal_tokens.len() as int) =~= st.normal_tokens);
        },
    }
}

/// Running sessions one after another only ever adds to the output.
pub proof fn law_sessions_output_grow(st: SState, ms: Seq<SSession>, i: int)
    ensures
        spec_sessions_from(st, ms, i) matches Some(Ok(st2)) ==> is_prefix(st.normal_tokens, st2.normal_tokens),
    decreases ms, ms.len() - i,
{
    if 0 <= i < ms.len() {
        law_session_output_grows(st, ms[i]);
        match spec_session(st, ms[i]) {
            Some(Ok(st1)) => {
                law_sessions_output_grow(st1, ms, i + 1);
                match spec_sessions_from(st1, ms, i + 1) {
                    Some(Ok(st2)) => {
                        let a = st.normal_tokens;
                        let b = st1.normal_tokens;
                        let c = st2.normal_tokens;
                        assert(c.subrange(0, b.len() as int) == b);
                        assert(b.subrange(0, a.len() as int) == a);
                        assert(c.subrange(0, a.len() as int) =~= c.subrange(0, b.len() as int).subrange(0, a.len() as int));
                    },
                    _ => {},
                }
            },
            _ => {},
        }
    } else {
        assert(st.normal_tokens.subrange(0, st.normal_tokens.len() as int) =~= st.normal_tokens);
    }
}

} // verus!
