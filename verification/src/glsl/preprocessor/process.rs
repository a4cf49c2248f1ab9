//! Running the sessions of a source against the preprocessor state.
use vstd::prelude::*;
use crate::text::{push_char, chars_of, append_str, append_string, string_of};
use crate::glsl::token::{SToken, Token, tokens_view};
use crate::glsl::preprocessor::lines::{spec_join_lines, spec_remove_comments, join_lines, remove_comments};
use crate::glsl::preprocessor::session::{
    MacroSession, SSession, SRead, SReadList, ReadOutcome, ReadListOutcome, session_wf, sessions_wf,
    view_sessions, lemma_view_sessions_len, spec_parse_macro, spec_read_all, parse_macro, read_all,
};
use crate::glsl::preprocessor::state::{PreprocessState, SState, strings_view, empty_state};
use crate::glsl::preprocessor::expand::{
    PreprocessError, spec_expand, spec_expand_fuel, expand_ends, lemma_expand_fuel_unique, lemma_expand_fuel_mono, expand_line, expand_line_bounded,
};

verus! {

/// The text a token is put out as: the name of an identifier, the spelling of
/// any other token.
pub open spec fn token_out_text(t: SToken) -> Seq<char> {
    match t {
        SToken::Identifier(n, _) => n,
        SToken::Operator(_, s) => s,
        SToken::Constant(_, s) => s,
        SToken::BasicType(_, s) => s,
    }
}

/// The texts of the tokens `ts`.
pub open spec fn out_texts(ts: Seq<SToken>) -> Seq<Seq<char>> {
    ts.map_values(|t: SToken| token_out_text(t))
}

/// The state after one session: a definition is added (replacing one of the
/// same name) or removed; an `#ifdef` block runs its first part when the name's
/// being defined is what it asks for, else its second part; a token line is
/// expanded and its tokens put out, then a line break; other sessions change
/// nothing. An error when an expansion fails; `None` when an expansion
/// overflows or never ends.
pub open spec fn spec_session(st: SState, m: SSession) -> Option<Result<SState, Seq<char>>>
    decreases m, 0int,
{
    match m {
        SSession::Define(k, d) => Some(Ok(SState { defines: st.defines.insert(k, d), normal_tokens: st.normal_tokens })),
        SSession::Undefine(k) => Some(Ok(SState { defines: st.defines.remove(k), normal_tokens: st.normal_tokens })),
        SSession::IfDefine(k, b, p1, p2) => if st.defines.contains_key(k) == b {
            spec_sessions_from(st, p1, 0)
        } else {
            spec_sessions_from(st, p2, 0)
        },
        SSession::Normal(ts) => match spec_expand(st.defines, ts) {
            None => None,
            Some(Err(msg)) => Some(Err(msg)),
            Some(Ok(out)) => Some(
                Ok(SState { defines: st.defines, normal_tokens: st.normal_tokens + out_texts(out) + seq![seq!['\n']] }),
            ),
        },
        _ => Some(Ok(st)),
    }
}

/// The sessions `ms[i..]` run one after another; the first error stops them.
pub open spec fn spec_sessions_from(st: SState, ms: Seq<SSession>, i: int) -> Option<Result<SState, Seq<char>>>
    decreases ms, ms.len() - i,
{
    if !(0 <= i < ms.len()) {
        Some(Ok(st))
    } else {
        match spec_session(st, ms[i]) {
            Some(Ok(st2)) => spec_sessions_from(st2, ms, i + 1),
            other => other,
        }
    }
}

/// The state in which one session stops, whether it succeeds or fails: after
/// an error, what the sessions before the failing one did stays, and the
/// failing token line puts out nothing.
pub open spec fn session_end(st: SState, m: SSession) -> SState
    decreases m, 0int,
{
    match m {
        SSession::IfDefine(k, b, p1, p2) => if st.defines.contains_key(k) == b {
            sessions_end(st, p1, 0)
        } else {
            sessions_end(st, p2, 0)
        },
        _ => match spec_session(st, m) {
            Some(Ok(st2)) => st2,
            _ => st,
        },
    }
}

/// The state in which the sessions `ms[i..]`, run one after another, stop.
pub open spec fn sessions_end(st: SState, ms: Seq<SSession>, i: int) -> SState
    decreases ms, ms.len() - i,
{
    if !(0 <= i < ms.len()) {
        st
    } else {
        match spec_session(st, ms[i]) {
            Some(Ok(st2)) => sessions_end(st2, ms, i + 1),
            _ => session_end(st, ms[i]),
        }
    }
}

/// Puts out the text of the token `t`.
pub fn preprocess_token(t: &Token, state: &mut PreprocessState)
    requires
        old(state).wf(),
    ensures
        final(state).wf(),
        final(state)@.defines == old(state)@.defines,
        final(state)@.normal_tokens == old(state)@.normal_tokens.push(token_out_text(t@)),
{
    let s = match t {
        Token::Identifier(n, _) => n.clone(),
        Token::Operator(_, s) => s.clone(),
        Token::Constant(_, s) => s.clone(),
        Token::BasicType(_, s) => s.clone(),
    };
    let ghost before = state.normal_tokens@;
    state.normal_tokens.push(s);
    assert(strings_view(state.normal_tokens@) =~= strings_view(before).push(token_out_text(t@)));
}

/// Puts out the texts of the tokens `tokens`, then a line break.
fn put_out_line(tokens: &Vec<Token>, state: &mut PreprocessState)
    requires
        old(state).wf(),
    ensures
        final(state).wf(),
        final(state)@ == (SState {
            defines: old(state)@.defines,
            normal_tokens: old(state)@.normal_tokens + out_texts(tokens_view(tokens@)) + seq![seq!['\n']],
        }),
{
    let ghost st0 = state@;
    let mut i: usize = 0;
    while i < tokens.len()
        invariant
            state.wf(),
            st0 == old(state)@,
            i <= tokens.len(),
            state@.defines == st0.defines,
            state@.normal_tokens == st0.normal_tokens + out_texts(tokens_view(tokens@).subrange(0, i as int)),
        decreases tokens.len() - i,
    {
        preprocess_token(&tokens[i], state);
        proof {
            let tv = tokens_view(tokens@);
            assert(tv.subrange(0, i + 1) =~= tv.subrange(0, i as int).push(tokens@[i as int]@));
            assert(out_texts(tv.subrange(0, i + 1)) =~= out_texts(tv.subrange(0, i as int)).push(token_out_text(tokens@[i as int]@)));
        }
        i = i + 1;
    }
    assert(tokens_view(tokens@).subrange(0, tokens@.len() as int) =~= tokens_view(tokens@));
    let mut nl = String::new();
    push_char(&mut nl, '\n');
    assert(nl@ =~= seq!['\n']);
    let ghost before = state.normal_tokens@;
    state.normal_tokens.push(nl);
    assert(strings_view(state.normal_tokens@) =~= strings_view(before).push(seq!['\n']));
    assert(state@.normal_tokens =~= st0.normal_tokens + out_texts(tokens_view(tokens@)) + seq![seq!['\n']]);
}

/// Runs one session against the state.
pub fn preprocess_session(m: &MacroSession, state: &mut PreprocessState) -> (r: Result<(), PreprocessError>)
    requires
        old(state).wf(),
        session_wf(m@),
        spec_session(old(state)@, m@) is Some,
    ensures
        final(state).wf(),
        match spec_session(old(state)@, m@) {
            Some(Ok(st)) => r is Ok && final(state)@ == st,
            Some(Err(msg)) => r matches Err(e) && e.0@ == msg && final(state)@ == session_end(old(state)@, m@),
            None => false,
        },
    decreases m,
{
    match m {
        MacroSession::Define(s, a) => {
            state.define(s.clone(), a.copy());
            Ok(())
        },
        MacroSession::Undefine(s) => {
            state.undefine(s);
            Ok(())
        },
        MacroSession::IfDefine(k, b, first, second) => {
            let contain = state.is_defined(k);
            let doit = contain == *b;
            let list = if doit { first } else { second };
            let ghost lv = view_sessions(list@);
            let ghost st0 = state@;
            proof {
                lemma_view_sessions_len(list@);
            }
            assert(spec_session(st0, m@) == spec_sessions_from(st0, lv, 0));
            let mut i: usize = 0;
            while i < list.len()
                invariant
                    state.wf(),
                    st0 == old(state)@,
                    lv == view_sessions(list@),
                    lv.len() == list@.len(),
                    forall|j: int| 0 <= j < list@.len() ==> #[trigger] lv[j] == list@[j]@,
                    sessions_wf(lv),
                    i <= list.len(),
                    spec_session(st0, m@) == spec_sessions_from(state@, lv, i as int),
                    session_end(st0, m@) == sessions_end(state@, lv, i as int),
                    spec_session(st0, m@) is Some,
                    forall|j: int| 0 <= j < list@.len() ==> decreases_to!(*m => #[trigger] list@[j]),
                decreases list.len() - i,
            {
                assert(lv[i as int] == list@[i as int]@);
                assert(session_wf(lv[i as int]));
                match preprocess_session(&list[i], state) {
                    Err(e) => {
                        return Err(e);
                    },
                    Ok(()) => {},
                }
                i = i + 1;
            }
            Ok(())
        },
        MacroSession::Normal(n) => {
            match expand_line(n, state) {
                Err(e) => Err(e),
                Ok(tokens) => {
                    put_out_line(&tokens, state);
                    Ok(())
                },
            }
        },
        _ => Ok(()),
    }
}

// ---------------------------------------------------------------------------
// The whole preprocessor
// ---------------------------------------------------------------------------

/// The texts `ts`, each after a space.
pub open spec fn join_tokens(ts: Seq<Seq<char>>) -> Seq<char>
    decreases ts.len(),
{
    if ts.len() == 0 {
        Seq::empty()
    } else {
        join_tokens(ts.drop_last()) + seq![' '] + ts.last()
    }
}

/// The line that defines the predefined macro `k` as `v`.
pub open spec fn predef_line(k: Seq<char>, v: Seq<char>) -> Seq<char> {
    "#define "@ + k + seq![' '] + v
}

pub open spec fn pairs_view(p: Seq<(String, String)>) -> Seq<(Seq<char>, Seq<char>)> {
    p.map_values(|kv: (String, String)| (kv.0@, kv.1@))
}

/// The message when a line of predefinitions cannot be read.
pub open spec fn predef_error_message() -> Seq<char> {
    "Preprocess Error"@
}

/// The message when an `#ifdef` block is not closed by `#endif`.
pub open spec fn failure_message() -> Seq<char> {
    "Preprocess Failure: #ifdef block without #endif"@
}

/// The predefinitions `predefs[i..]`, each read as the line
/// `#define key value`; a line that reads as another session defines nothing.
pub open spec fn spec_predefs(st: SState, predefs: Seq<(Seq<char>, Seq<char>)>, i: int) -> Result<SState, Seq<char>>
    decreases predefs.len() - i,
{
    if !(0 <= i < predefs.len()) {
        Ok(st)
    } else {
        match spec_parse_macro(predef_line(predefs[i].0, predefs[i].1), 0) {
            SRead::Got(SSession::Define(k, d), _) => spec_predefs(
                SState { defines: st.defines.insert(k, d), normal_tokens: st.normal_tokens },
                predefs,
                i + 1,
            ),
            SRead::Got(_, _) => spec_predefs(st, predefs, i + 1),
            _ => Err(predef_error_message()),
        }
    }
}

/// Preprocessing `s` with the predefined macros `predefs`: lines ending in a
/// backslash are joined, comments are removed, the text is read as sessions,
/// the predefinitions are defined, the sessions are run, and the texts put out
/// are joined, each after a space. `None` when an expansion overflows or never
/// ends.
pub open spec fn spec_preprocess(s: Seq<char>, predefs: Seq<(Seq<char>, Seq<char>)>) -> Option<Result<Seq<char>, Seq<char>>> {
    let u = spec_remove_comments(spec_join_lines(s));
    match spec_read_all(u, 0, Seq::empty()) {
        SReadList::Failure => Some(Err(failure_message())),
        SReadList::Got(ms, _) => spec_run(predefs, ms),
    }
}

/// The predefinitions, then the sessions `ms`, from the empty state.
pub open spec fn spec_run(predefs: Seq<(Seq<char>, Seq<char>)>, ms: Seq<SSession>) -> Option<Result<Seq<char>, Seq<char>>> {
    match spec_predefs(empty_state(), predefs, 0) {
        Err(msg) => Some(Err(msg)),
        Ok(st) => spec_finish(spec_sessions_from(st, ms, 0)),
    }
}

/// The text put out by a run of sessions.
pub open spec fn spec_finish(r: Option<Result<SState, Seq<char>>>) -> Option<Result<Seq<char>, Seq<char>>> {
    match r {
        None => None,
        Some(Err(msg)) => Some(Err(msg)),
        Some(Ok(st)) => Some(Ok(join_tokens(st.normal_tokens))),
    }
}

fn error_from_str(t: &str) -> (e: PreprocessError)
    ensures
        e.0@ == t@,
{
    let mut v: Vec<char> = Vec::new();
    append_str(&mut v, t);
    assert(v@ =~= t@);
    PreprocessError(string_of(&v))
}

/// What preprocessing `s` with `predefs` starts from: the sessions read from
/// the text (after lines are joined and comments removed) and the state
/// holding the predefinitions; or the message when the text cannot be read
/// or a predefinition cannot be.
pub open spec fn spec_setup(s: Seq<char>, predefs: Seq<(Seq<char>, Seq<char>)>) -> Result<(SState, Seq<SSession>), Seq<char>> {
    let u = spec_remove_comments(spec_join_lines(s));
    match spec_read_all(u, 0, Seq::empty()) {
        SReadList::Failure => Err(failure_message()),
        SReadList::Got(ms, _) => match spec_predefs(empty_state(), predefs, 0) {
            Err(msg) => Err(msg),
            Ok(st) => Ok((st, ms)),
        },
    }
}

/// Reads the sessions of `s` and defines the predefinitions.
fn setup(s: &str, predefs: &Vec<(String, String)>) -> (r: Result<(PreprocessState, Vec<MacroSession>), PreprocessError>)
    ensures
        match spec_setup(s@, pairs_view(predefs@)) {
            Err(msg) => r matches Err(e) && e.0@ == msg,
            Ok((st, ms)) => r matches Ok((state, v)) && state.wf() && state@ == st && view_sessions(v@) == ms
                && sessions_wf(ms),
        },
{
    let v = chars_of(s);
    let joined = join_lines(&v);
    let u = remove_comments(&joined);
    let ms = match read_all(&u) {
        ReadListOutcome::Failure => {
            return Err(error_from_str("Preprocess Failure: #ifdef block without #endif"));
        },
        ReadListOutcome::Got(ms, _) => ms,
    };
    let ghost pv = pairs_view(predefs@);
    let mut state = PreprocessState::new();
    let mut i: usize = 0;
    while i < predefs.len()
        invariant
            state.wf(),
            pv == pairs_view(predefs@),
            i <= predefs.len(),
            spec_predefs(empty_state(), pv, 0) == spec_predefs(state@, pv, i as int),
            spec_setup(s@, pv) == match spec_predefs(empty_state(), pv, 0) {
                Err(msg) => Err(msg),
                Ok(st) => Ok((st, view_sessions(ms@))),
            },
            sessions_wf(view_sessions(ms@)),
        decreases predefs.len() - i,
    {
        let mut line: Vec<char> = Vec::new();
        append_str(&mut line, "#define ");
        append_string(&mut line, &predefs[i].0);
        line.push(' ');
        append_string(&mut line, &predefs[i].1);
        assert(line@ =~= predef_line(pv[i as int].0, pv[i as int].1));
        match parse_macro(&line, 0) {
            ReadOutcome::Got(m, _) => {
                match m {
                    MacroSession::Define(k, d) => {
                        state.define(k, d);
                    },
                    _ => {},
                }
            },
            _ => {
                return Err(error_from_str("Preprocess Error"));
            },
        }
        i = i + 1;
    }
    Ok((state, ms))
}

/// The texts put out, each after a space.
fn join_output(state: &PreprocessState) -> (r: String)
    ensures
        r@ == join_tokens(state@.normal_tokens),
{
    let mut out: Vec<char> = Vec::new();
    let mut k: usize = 0;
    while k < state.normal_tokens.len()
        invariant
            k <= state.normal_tokens.len(),
            out@ == join_tokens(strings_view(state.normal_tokens@).subrange(0, k as int)),
        decreases state.normal_tokens.len() - k,
    {
        let ghost before = out@;
        out.push(' ');
        append_string(&mut out, &state.normal_tokens[k]);
        proof {
            let sv = strings_view(state.normal_tokens@);
            assert(sv.subrange(0, k + 1).drop_last() =~= sv.subrange(0, k as int));
        }
        k = k + 1;
    }
    assert(strings_view(state.normal_tokens@).subrange(0, state.normal_tokens@.len() as int) =~= strings_view(state.normal_tokens@));
    string_of(&out)
}

/// Preprocesses the GLSL source `s` with the predefined macros `predefs`
/// (pairs of a name and its replacement text).
pub fn preprocess(s: &str, predefs: &Vec<(String, String)>) -> (r: Result<String, PreprocessError>)
    requires
        spec_preprocess(s@, pairs_view(predefs@)) is Some,
    ensures
        match spec_preprocess(s@, pairs_view(predefs@)) {
            Some(Ok(out)) => r matches Ok(t) && t@ == out,
            Some(Err(msg)) => r matches Err(e) && e.0@ == msg,
            None => false,
        },
{
    let (mut state, ms) = match setup(s, predefs) {
        Err(e) => {
            return Err(e);
        },
        Ok(x) => x,
    };
    let ghost msv = view_sessions(ms@);
    let ghost st0 = state@;
    proof {
        lemma_view_sessions_len(ms@);
    }
    let mut j: usize = 0;
    while j < ms.len()
        invariant
            state.wf(),
            msv == view_sessions(ms@),
            msv.len() == ms@.len(),
            forall|k: int| 0 <= k < ms@.len() ==> #[trigger] msv[k] == ms@[k]@,
            sessions_wf(msv),
            j <= ms.len(),
            spec_preprocess(s@, pairs_view(predefs@)) == spec_finish(spec_sessions_from(st0, msv, 0)),
            spec_sessions_from(st0, msv, 0) is Some,
            spec_sessions_from(st0, msv, 0) == spec_sessions_from(state@, msv, j as int),
        decreases ms.len() - j,
    {
        assert(msv[j as int] == ms@[j as int]@);
        assert(session_wf(msv[j as int]));
        match preprocess_session(&ms[j], &mut state) {
            Err(e) => {
                return Err(e);
            },
            Ok(()) => {},
        }
        j = j + 1;
    }
    Ok(join_output(&state))
}

// ---------------------------------------------------------------------------
// Preprocessing with a bound on the expansion passes
// ---------------------------------------------------------------------------

/// As [`spec_session`], with each token line expanded in at most `passes`
/// passes after the first: `None` also when that is not enough.
pub open spec fn spec_session_bounded(st: SState, m: SSession, passes: nat) -> Option<Result<SState, Seq<char>>>
    decreases m, 0int,
{
    match m {
        SSession::Define(k, d) => Some(Ok(SState { defines: st.defines.insert(k, d), normal_tokens: st.normal_tokens })),
        SSession::Undefine(k) => Some(Ok(SState { defines: st.defines.remove(k), normal_tokens: st.normal_tokens })),
        SSession::IfDefine(k, b, p1, p2) => if st.defines.contains_key(k) == b {
            spec_sessions_bounded(st, p1, 0, passes)
        } else {
            spec_sessions_bounded(st, p2, 0, passes)
        },
        SSession::Normal(ts) => match spec_expand_fuel(st.defines, ts, passes) {
            None => None,
            Some(Err(msg)) => Some(Err(msg)),
            Some(Ok(out)) => Some(
                Ok(SState { defines: st.defines, normal_tokens: st.normal_tokens + out_texts(out) + seq![seq!['\n']] }),
            ),
        },
        _ => Some(Ok(st)),
    }
}

/// As [`spec_sessions_from`], with the bound of [`spec_session_bounded`].
pub open spec fn spec_sessions_bounded(st: SState, ms: Seq<SSession>, i: int, passes: nat) -> Option<Result<SState, Seq<char>>>
    decreases ms, ms.len() - i,
{
    if !(0 <= i < ms.len()) {
        Some(Ok(st))
    } else {
        match spec_session_bounded(st, ms[i], passes) {
            Some(Ok(st2)) => spec_sessions_bounded(st2, ms, i + 1, passes),
            other => other,
        }
    }
}

/// As [`spec_preprocess`], with each token line expanded in at most `passes`
/// passes after the first.
pub open spec fn spec_preprocess_bounded(s: Seq<char>, predefs: Seq<(Seq<char>, Seq<char>)>, passes: nat) -> Option<Result<Seq<char>, Seq<char>>> {
    match spec_setup(s, predefs) {
        Err(msg) => Some(Err(msg)),
        Ok((st, ms)) => spec_finish(spec_sessions_bounded(st, ms, 0, passes)),
    }
}

/// What the bounded run gives, when it gives anything, is what the run
/// without a bound gives.
pub proof fn lemma_session_bounded(st: SState, m: SSession, passes: nat)
    ensures
        spec_session_bounded(st, m, passes) is Some ==> spec_session(st, m) == spec_session_bounded(st, m, passes),
    decreases m, 0int,
{
    match m {
        SSession::IfDefine(k, b, p1, p2) => {
            lemma_sessions_bounded(st, p1, 0, passes);
            lemma_sessions_bounded(st, p2, 0, passes);
        },
        SSession::Normal(ts) => {
            if spec_expand_fuel(st.defines, ts, passes) is Some {
                assert(expand_ends(st.defines, ts));
                let n = choose|fuel: nat| #[trigger] spec_expand_fuel(st.defines, ts, fuel) is Some;
                lemma_expand_fuel_unique(st.defines, ts, passes, n);
            }
        },
        _ => {},
    }
}

/// As [`lemma_session_bounded`], for a run of sessions.
pub proof fn lemma_sessions_bounded(st: SState, ms: Seq<SSession>, i: int, passes: nat)
    ensures
        spec_sessions_bounded(st, ms, i, passes) is Some ==> spec_sessions_from(st, ms, i) == spec_sessions_bounded(st, ms, i, passes),
    decreases ms, ms.len() - i,
{
    if 0 <= i < ms.len() {
        lemma_session_bounded(st, ms[i], passes);
        match spec_session_bounded(st, ms[i], passes) {
            Some(Ok(st2)) => lemma_sessions_bounded(st2, ms, i + 1, passes),
            _ => {},
        }
    }
}

/// A larger bound gives what a smaller one gives, once that gives anything.
pub proof fn lemma_session_bounded_mono(st: SState, m: SSession, a: nat, b: nat)
    requires
        a <= b,
        spec_session_bounded(st, m, a) is Some,
    ensures
        spec_session_bounded(st, m, b) == spec_session_bounded(st, m, a),
    decreases m, 0int,
{
    match m {
        SSession::IfDefine(k, bb, p1, p2) => {
            if st.defines.contains_key(k) == bb {
                lemma_sessions_bounded_mono(st, p1, 0, a, b);
            } else {
                lemma_sessions_bounded_mono(st, p2, 0, a, b);
            }
        },
        SSession::Normal(ts) => {
            lemma_expand_fuel_mono(st.defines, ts, a, b);
        },
        _ => {},
    }
}

/// As [`lemma_session_bounded_mono`], for a run of sessions.
pub proof fn lemma_sessions_bounded_mono(st: SState, ms: Seq<SSession>, i: int, a: nat, b: nat)
    requires
        a <= b,
        spec_sessions_bounded(st, ms, i, a) is Some,
    ensures
        spec_sessions_bounded(st, ms, i, b) == spec_sessions_bounded(st, ms, i, a),
    decreases ms, ms.len() - i,
{
    if 0 <= i < ms.len() {
        lemma_session_bounded_mono(st, ms[i], a, b);
        match spec_session_bounded(st, ms[i], a) {
            Some(Ok(st2)) => lemma_sessions_bounded_mono(st2, ms, i + 1, a, b),
            _ => {},
        }
    }
}

/// A run that comes to an end does so within some bound.
pub proof fn lemma_session_bound_exists(st: SState, m: SSession) -> (n: nat)
    requires
        spec_session(st, m) is Some,
    ensures
        spec_session_bounded(st, m, n) == spec_session(st, m),
    decreases m, 0int,
{
    match m {
        SSession::IfDefine(k, b, p1, p2) => {
            if st.defines.contains_key(k) == b {
                lemma_sessions_bound_exists(st, p1, 0)
            } else {
                lemma_sessions_bound_exists(st, p2, 0)
            }
        },
        SSession::Normal(ts) => {
            let n = choose|fuel: nat| #[trigger] spec_expand_fuel(st.defines, ts, fuel) is Some;
            n
        },
        _ => 0,
    }
}

/// As [`lemma_session_bound_exists`], for a run of sessions.
pub proof fn lemma_sessions_bound_exists(st: SState, ms: Seq<SSession>, i: int) -> (n: nat)
    requires
        spec_sessions_from(st, ms, i) is Some,
    ensures
        spec_sessions_bounded(st, ms, i, n) == spec_sessions_from(st, ms, i),
    decreases ms, ms.len() - i,
{
    if 0 <= i < ms.len() {
        let n1 = lemma_session_bound_exists(st, ms[i]);
        match spec_session(st, ms[i]) {
            Some(Ok(st2)) => {
                let n2 = lemma_sessions_bound_exists(st2, ms, i + 1);
                let n: nat = if n1 <= n2 { n2 } else { n1 };
                lemma_session_bounded_mono(st, ms[i], n1, n);
                lemma_sessions_bounded_mono(st2, ms, i + 1, n2, n);
                n
            },
            _ => n1,
        }
    } else {
        0
    }
}

/// Preprocessing that comes to an end is preprocessing within some bound on
/// the expansion passes, and a bound that gives a result gives that of the
/// preprocessing without a bound.
pub proof fn law_bounded_preprocess_agrees(s: Seq<char>, predefs: Seq<(Seq<char>, Seq<char>)>, passes: nat)
    ensures
        spec_preprocess(s, predefs) is Some ==> exists|n: nat| #[trigger] spec_preprocess_bounded(s, predefs, n) == spec_preprocess(s, predefs),
        spec_preprocess_bounded(s, predefs, passes) is Some ==> spec_preprocess(s, predefs) == spec_preprocess_bounded(s, predefs, passes),
{
    if let Ok((st, ms)) = spec_setup(s, predefs) {
        lemma_sessions_bounded(st, ms, 0, passes);
        if spec_preprocess(s, predefs) is Some {
            let n = lemma_sessions_bound_exists(st, ms, 0);
            assert(spec_preprocess_bounded(s, predefs, n) == spec_preprocess(s, predefs));
        }
    } else {
        assert(spec_preprocess_bounded(s, predefs, 0) == spec_preprocess(s, predefs));
    }
}

/// Runs one session against the state, expanding each token line in at
/// most `passes` passes after the first; `None` when that is not enough or a
/// parenthesis counter would overflow.
pub fn preprocess_session_bounded(m: &MacroSession, state: &mut PreprocessState, passes: usize) -> (r: Option<Result<(), PreprocessError>>)
    requires
        old(state).wf(),
        session_wf(m@),
    ensures
        final(state).wf(),
        match spec_session_bounded(old(state)@, m@, passes as nat) {
            Some(Ok(st)) => r == Some(Ok::<(), PreprocessError>(())) && final(state)@ == st,
            Some(Err(msg)) => r matches Some(Err(e)) && e.0@ == msg,
            None => r is None,
        },
    decreases m,
{
    match m {
        MacroSession::Define(s, a) => {
            state.define(s.clone(), a.copy());
            Some(Ok(()))
        },
        MacroSession::Undefine(s) => {
            state.undefine(s);
            Some(Ok(()))
        },
        MacroSession::IfDefine(k, b, first, second) => {
            let contain = state.is_defined(k);
            let doit = contain == *b;
            let list = if doit { first } else { second };
            let ghost lv = view_sessions(list@);
            let ghost st0 = state@;
            proof {
                lemma_view_sessions_len(list@);
            }
            assert(spec_session_bounded(st0, m@, passes as nat) == spec_sessions_bounded(st0, lv, 0, passes as nat));
            let mut i: usize = 0;
            while i < list.len()
                invariant
                    state.wf(),
                    st0 == old(state)@,
                    lv == view_sessions(list@),
                    lv.len() == list@.len(),
                    forall|j: int| 0 <= j < list@.len() ==> #[trigger] lv[j] == list@[j]@,
                    sessions_wf(lv),
                    i <= list.len(),
                    spec_session_bounded(st0, m@, passes as nat) == spec_sessions_bounded(state@, lv, i as int, passes as nat),
                    forall|j: int| 0 <= j < list@.len() ==> decreases_to!(*m => #[trigger] list@[j]),
                decreases list.len() - i,
            {
                assert(lv[i as int] == list@[i as int]@);
                assert(session_wf(lv[i as int]));
                match preprocess_session_bounded(&list[i], state, passes) {
                    None => {
                        return None;
                    },
                    Some(Err(e)) => {
                        return Some(Err(e));
                    },
                    Some(Ok(())) => {},
                }
                i = i + 1;
            }
            Some(Ok(()))
        },
        MacroSession::Normal(n) => {
            match expand_line_bounded(n, state, passes) {
                None => None,
                Some(Err(e)) => Some(Err(e)),
                Some(Ok(tokens)) => {
                    put_out_line(&tokens, state);
                    Some(Ok(()))
                },
            }
        },
        _ => Some(Ok(())),
    }
}

/// Preprocesses the GLSL source `s` with the predefined macros `predefs`, as
/// [`preprocess`] does, but expands each token line in at most `passes`
/// passes after the first: `None` when that is not enough (a macro that
/// keeps expanding) or when a parenthesis counter would overflow. What it
/// returns otherwise is what [`preprocess`] returns.
pub fn preprocess_bounded(s: &str, predefs: &Vec<(String, String)>, passes: usize) -> (r: Option<Result<String, PreprocessError>>)
    ensures
        match spec_preprocess_bounded(s@, pairs_view(predefs@), passes as nat) {
            Some(Ok(out)) => r matches Some(Ok(t)) && t@ == out,
            Some(Err(msg)) => r matches Some(Err(e)) && e.0@ == msg,
            None => r is None,
        },
        spec_preprocess_bounded(s@, pairs_view(predefs@), passes as nat) is Some
            ==> spec_preprocess(s@, pairs_view(predefs@)) == spec_preprocess_bounded(s@, pairs_view(predefs@), passes as nat),
{
    proof {
        if let Ok((st, ms)) = spec_setup(s@, pairs_view(predefs@)) {
            lemma_sessions_bounded(st, ms, 0, passes as nat);
        }
    }
    let (mut state, ms) = match setup(s, predefs) {
        Err(e) => {
            return Some(Err(e));
        },
        Ok(x) => x,
    };
    let ghost msv = view_sessions(ms@);
    let ghost st0 = state@;
    proof {
        lemma_view_sessions_len(ms@);
    }
    let mut j: usize = 0;
    while j < ms.len()
        invariant
            state.wf(),
            msv == view_sessions(ms@),
            msv.len() == ms@.len(),
            forall|k: int| 0 <= k < ms@.len() ==> #[trigger] msv[k] == ms@[k]@,
            sessions_wf(msv),
            j <= ms.len(),
            spec_preprocess_bounded(s@, pairs_view(predefs@), passes as nat) == spec_finish(spec_sessions_bounded(st0, msv, 0, passes as nat)),
            spec_preprocess_bounded(s@, pairs_view(predefs@), passes as nat) is Some
                ==> spec_preprocess(s@, pairs_view(predefs@)) == spec_preprocess_bounded(s@, pairs_view(predefs@), passes as nat),
            spec_sessions_bounded(st0, msv, 0, passes as nat) == spec_sessions_bounded(state@, msv, j as int, passes as nat),
        decreases ms.len() - j,
    {
        assert(msv[j as int] == ms@[j as int]@);
        assert(session_wf(msv[j as int]));
        match preprocess_session_bounded(&ms[j], &mut state, passes) {
            None => {
                return None;
            },
            Some(Err(e)) => {
                return Some(Err(e));
            },
            Some(Ok(())) => {},
        }
        j = j + 1;
    }
    Some(Ok(join_output(&state)))
}

} // verus!
