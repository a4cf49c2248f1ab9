//! Macro expansion and the preprocessor state.
use vstd::prelude::*;
use crate::glsl::operator::Operator;
use crate::text::{decimal, push_decimal};
use crate::glsl::token::{SToken, Token, tokens_view, string_eq};
use crate::glsl::preprocessor::session::{Define, DefineFunc, SDefine, SDefineFunc, define_wf, func_wf};
use crate::glsl::preprocessor::state::{PreprocessState, lemma_defines_map_at, lemma_wf_defines};

verus! {

/// The error of a preprocessing step, with its message.
#[derive(Debug)]
pub struct PreprocessError(pub String);

// ---------------------------------------------------------------------------
// Copies
// ---------------------------------------------------------------------------

/// A copy of the tokens `v`.
pub fn copy_tokens(v: &Vec<Token>) -> (r: Vec<Token>)
    ensures
        tokens_view(r@) == tokens_view(v@),
{
    let mut r: Vec<Token> = Vec::new();
    let mut i: usize = 0;
    while i < v.len()
        invariant
            i <= v.len(),
            r@.len() == i,
            forall|j: int| 0 <= j < i ==> #[trigger] r@[j]@ == v@[j]@,
        decreases v.len() - i,
    {
        r.push(v[i].copy());
        i = i + 1;
    }
    assert(tokens_view(r@) =~= tokens_view(v@));
    r
}

/// Appends copies of `src` to `dst`.
fn extend_tokens(dst: &mut Vec<Token>, src: &Vec<Token>)
    ensures
        tokens_view(final(dst)@) == tokens_view(old(dst)@) + tokens_view(src@),
{
    let mut i: usize = 0;
    while i < src.len()
        invariant
            i <= src.len(),
            tokens_view(dst@) == tokens_view(old(dst)@) + tokens_view(src@.subrange(0, i as int)),
        decreases src.len() - i,
    {
        let ghost before = dst@;
        dst.push(src[i].copy());
        proof {
            assert(tokens_view(dst@) =~= tokens_view(before) + seq![src@[i as int]@]);
            assert(tokens_view(src@.subrange(0, i + 1)) =~= tokens_view(src@.subrange(0, i as int)) + seq![src@[i as int]@]);
        }
        i = i + 1;
    }
    assert(src@.subrange(0, src@.len() as int) =~= src@);
}

impl DefineFunc {
    /// A copy of the macro.
    pub fn copy(&self) -> (r: DefineFunc)
        ensures
            r@ == self@,
    {
        let mut positions: Vec<Option<usize>> = Vec::new();
        let mut i: usize = 0;
        while i < self.positions.len()
            invariant
                i <= self.positions.len(),
                positions@ == self.positions@.subrange(0, i as int),
            decreases self.positions.len() - i,
        {
            positions.push(self.positions[i]);
            assert(self.positions@.subrange(0, i + 1) =~= self.positions@.subrange(0, i as int).push(self.positions@[i as int]));
            i = i + 1;
        }
        assert(self.positions@.subrange(0, self.positions@.len() as int) =~= self.positions@);
        DefineFunc { positions, nargs: self.nargs, tokens: copy_tokens(&self.tokens) }
    }
}

impl Define {
    /// A copy of the definition.
    pub fn copy(&self) -> (r: Define)
        ensures
            r@ == self@,
    {
        match self {
            Define::Replace(ts) => Define::Replace(copy_tokens(ts)),
            Define::Func(f) => Define::Func(f.copy()),
        }
    }
}

// ---------------------------------------------------------------------------
// Decimal numbers and the message of a failed application
// ---------------------------------------------------------------------------

/// The message when a function-like macro gets a wrong number of arguments.
pub open spec fn apply_error_message(name: Seq<char>, nargs: nat, given: nat) -> Seq<char> {
    "Fail to apply define macro for "@ + name + ", expects "@ + decimal(nargs) + " args, given "@
        + decimal(given) + " args"@
}

fn make_apply_error(name: &String, nargs: usize, given: usize) -> (r: PreprocessError)
    ensures
        r.0@ == apply_error_message(name@, nargs as nat, given as nat),
{
    let mut v: Vec<char> = Vec::new();
    crate::text::append_str(&mut v, "Fail to apply define macro for ");
    crate::text::append_string(&mut v, name);
    crate::text::append_str(&mut v, ", expects ");
    push_decimal(&mut v, nargs);
    crate::text::append_str(&mut v, " args, given ");
    push_decimal(&mut v, given);
    crate::text::append_str(&mut v, " args");
    assert(v@ =~= apply_error_message(name@, nargs as nat, given as nat));
    PreprocessError(crate::text::string_of(&v))
}

// ---------------------------------------------------------------------------
// Applying a function-like macro
// ---------------------------------------------------------------------------

pub open spec fn is_op(t: SToken, op: Operator) -> bool {
    t matches SToken::Operator(o, _) && o == op
}

/// Collects the arguments of a call from `ts[j..]`: parentheses are counted
/// from 0; a `(` at depth above 0, a `)` that does not close the call, a `,` at
/// depth other than 1, and any other token go to the current argument; a `,`
/// at depth 1 ends an argument; the `)` that brings the depth back to 0 ends
/// the last argument and the call. At the end of the tokens the arguments
/// ended so far are the result. The depth is a 32-bit signed counter:
/// `None` when it would leave that range.
pub open spec fn spec_collect(
    ts: Seq<SToken>,
    j: int,
    stack: int,
    cur: Seq<SToken>,
    params: Seq<Seq<SToken>>,
) -> Option<(Seq<Seq<SToken>>, int)>
    decreases ts.len() - j,
{
    if !(0 <= j < ts.len()) {
        Some((params, j))
    } else if is_op(ts[j], Operator::LeftParen) {
        if stack + 1 > i32::MAX {
            None
        } else {
            spec_collect(ts, j + 1, stack + 1, if stack > 0 { cur.push(ts[j]) } else { cur }, params)
        }
    } else if is_op(ts[j], Operator::RightParen) {
        if stack - 1 < i32::MIN {
            None
        } else if stack - 1 == 0 {
            Some((params.push(cur), j + 1))
        } else {
            spec_collect(ts, j + 1, stack - 1, cur.push(ts[j]), params)
        }
    } else if is_op(ts[j], Operator::Comma) && stack == 1 {
        spec_collect(ts, j + 1, stack, Seq::empty(), params.push(cur))
    } else {
        spec_collect(ts, j + 1, stack, cur.push(ts[j]), params)
    }
}

/// The tokens that body token `k` of `f` stands for.
pub open spec fn subst_piece(f: SDefineFunc, params: Seq<Seq<SToken>>, k: int) -> Seq<SToken> {
    match f.positions[k] {
        Some(a) => params[a as int],
        None => seq![f.tokens[k]],
    }
}

/// The body tokens `0..k` of `f` with the parameters replaced by `params`.
pub open spec fn subst_prefix(f: SDefineFunc, params: Seq<Seq<SToken>>, k: int) -> Seq<SToken>
    decreases k,
{
    if k <= 0 {
        Seq::empty()
    } else {
        subst_prefix(f, params, k - 1) + subst_piece(f, params, k - 1)
    }
}

/// Applying the function-like macro `f` named `name` to the tokens from `ts[j]`
/// on: the expansion and the position after the call, or the message when the
/// number of arguments is not the macro's; `None` when the depth counter
/// overflows.
pub open spec fn spec_apply(f: SDefineFunc, name: Seq<char>, ts: Seq<SToken>, j: int) -> Option<
    Result<(Seq<SToken>, int), Seq<char>>,
> {
    match spec_collect(ts, j, 0, Seq::empty(), Seq::empty()) {
        None => None,
        Some((params, e)) => if params.len() != f.nargs {
            Some(Err(apply_error_message(name, f.nargs, params.len())))
        } else {
            Some(Ok((subst_prefix(f, params, f.tokens.len() as int), e)))
        },
    }
}

pub open spec fn params_view(p: Seq<Vec<Token>>) -> Seq<Seq<SToken>> {
    p.map_values(|v: Vec<Token>| tokens_view(v@))
}

proof fn lemma_collect_end(ts: Seq<SToken>, j: int, stack: int, cur: Seq<SToken>, params: Seq<Seq<SToken>>)
    requires
        0 <= j <= ts.len(),
    ensures
        spec_collect(ts, j, stack, cur, params) matches Some((_, e)) ==> j <= e <= ts.len() && (j < ts.len() ==> j < e),
    decreases ts.len() - j,
{
    if j < ts.len() {
        let c = if stack > 0 { cur.push(ts[j]) } else { cur };
        lemma_collect_end(ts, j + 1, stack + 1, c, params);
        lemma_collect_end(ts, j + 1, stack - 1, cur.push(ts[j]), params);
        lemma_collect_end(ts, j + 1, stack, Seq::empty(), params.push(cur));
        lemma_collect_end(ts, j + 1, stack, cur.push(ts[j]), params);
    }
}

fn token_is_op(t: &Token, op: Operator) -> (r: bool)
    ensures
        r == is_op(t@, op),
{
    match t {
        Token::Operator(o, _) => *o == op,
        _ => false,
    }
}

impl DefineFunc {
    /// Applies the macro (named `name`) to the tokens from `ts[j]` on, appending
    /// the expansion to `result`; returns the position after the call. `None`,
    /// with `result` unchanged, when the parenthesis counter would overflow.
    pub fn apply(&self, name: &String, ts: &Vec<Token>, j: usize, result: &mut Vec<Token>) -> (r: Option<Result<usize, PreprocessError>>)
        requires
            func_wf(self@),
            j <= ts.len(),
        ensures
            match spec_apply(self@, name@, tokens_view(ts@), j as int) {
                Some(Ok((out, e))) => r matches Some(Ok(q)) && q == e && tokens_view(final(result)@) == tokens_view(old(result)@) + out,
                Some(Err(msg)) => r matches Some(Err(err)) && err.0@ == msg && final(result)@ == old(result)@,
                None => r is None && final(result)@ == old(result)@,
            },
    {
        let ghost tv = tokens_view(ts@);
        let mut stack: i64 = 0;
        let mut cur: Vec<Token> = Vec::new();
        let mut params: Vec<Vec<Token>> = Vec::new();
        let mut i = j;
        proof {
            assert(tokens_view(cur@) =~= Seq::<SToken>::empty());
            assert(params_view(params@) =~= Seq::<Seq<SToken>>::empty());
        }
        while i < ts.len()
            invariant_except_break
                i32::MIN <= stack <= i32::MAX,
                spec_collect(tv, j as int, 0, Seq::empty(), Seq::empty())
                    == spec_collect(tv, i as int, stack as int, tokens_view(cur@), params_view(params@)),
            invariant
                tv == tokens_view(ts@),
                result@ == old(result)@,
                j <= i <= ts.len(),
            ensures
                spec_collect(tv, j as int, 0, Seq::empty(), Seq::empty()) == Some((params_view(params@), i as int)),
            decreases ts.len() - i,
        {
            let t = &ts[i];
            assert(tv[i as int] == t@);
            if token_is_op(t, Operator::LeftParen) {
                if stack >= 2147483647 {
                    return None;
                }
                if stack > 0 {
                    let ghost before = cur@;
                    cur.push(t.copy());
                    assert(tokens_view(cur@) =~= tokens_view(before).push(t@));
                }
                stack = stack + 1;
            } else if token_is_op(t, Operator::RightParen) {
                if stack <= -2147483648 {
                    return None;
                }
                stack = stack - 1;
                if stack == 0 {
                    let ghost before = params@;
                    params.push(cur);
                    proof {
                        assert(params_view(params@) =~= params_view(before).push(tokens_view(cur@)));
                    }
                    i = i + 1;
                    break;
                }
                let ghost before = cur@;
                cur.push(t.copy());
                assert(tokens_view(cur@) =~= tokens_view(before).push(t@));
            } else if token_is_op(t, Operator::Comma) && stack == 1 {
                let ghost before = params@;
                params.push(cur);
                proof {
                    assert(params_view(params@) =~= params_view(before).push(tokens_view(cur@)));
                }
                cur = Vec::new();
                assert(tokens_view(cur@) =~= Seq::<SToken>::empty());
            } else {
                let ghost before = cur@;
                cur.push(t.copy());
                assert(tokens_view(cur@) =~= tokens_view(before).push(t@));
            }
            i = i + 1;
        }
        assert(spec_collect(tv, j as int, 0, Seq::empty(), Seq::empty()) == Some((params_view(params@), i as int)));
        if params.len() != self.nargs {
            return Some(Err(make_apply_error(name, self.nargs, params.len())));
        }
        let ghost pv = params_view(params@);
        let mut k: usize = 0;
        while k < self.tokens.len()
            invariant
                func_wf(self@),
                pv == params_view(params@),
                params@.len() == self.nargs,
                k <= self.tokens.len(),
                tokens_view(result@) == tokens_view(old(result)@) + subst_prefix(self@, pv, k as int),
            decreases self.tokens.len() - k,
        {
            let ghost before = result@;
            assert(self@.positions[k as int] == self.positions@[k as int]);
            match self.positions[k] {
                Some(a) => {
                    assert(a < self.nargs);
                    extend_tokens(result, &params[a]);
                    assert(pv[a as int] == tokens_view(params@[a as int]@));
                },
                None => {
                    result.push(self.tokens[k].copy());
                    assert(tokens_view(result@) =~= tokens_view(before) + seq![self.tokens@[k as int]@]);
                    assert(self@.tokens[k as int] == self.tokens@[k as int]@);
                },
            }
            proof {
                assert(subst_prefix(self@, pv, k + 1) == subst_prefix(self@, pv, k as int) + subst_piece(self@, pv, k as int));
                assert(tokens_view(result@) =~= tokens_view(old(result)@) + subst_prefix(self@, pv, k + 1));
            }
            k = k + 1;
        }
        Some(Ok(i))
    }
}

// ---------------------------------------------------------------------------
// Expanding a line of tokens
// ---------------------------------------------------------------------------

/// One pass over the tokens `ts[j..]` with the macros `defs`, after the
/// output `acc`: an identifier naming a macro is replaced by its expansion (a
/// function-like macro takes its arguments from the tokens after it); other
/// tokens are copied. The result says whether a macro was expanded, and the
/// output; an error when a function-like macro gets a wrong number of
/// arguments; `None` when the parenthesis counter overflows.
pub open spec fn spec_source_from(
    defs: Map<Seq<char>, SDefine>,
    ts: Seq<SToken>,
    j: int,
    processed: bool,
    acc: Seq<SToken>,
) -> Option<Result<(bool, Seq<SToken>), Seq<char>>>
    decreases ts.len() - j,
{
    if !(0 <= j < ts.len()) {
        Some(Ok((processed, acc)))
    } else {
        match ts[j] {
            SToken::Identifier(name, _) => if defs.contains_key(name) {
                match defs[name] {
                    SDefine::Replace(c) => spec_source_from(defs, ts, j + 1, true, acc + c),
                    SDefine::Func(f) => match spec_apply(f, name, ts, j + 1) {
                        None => None,
                        Some(Err(msg)) => Some(Err(msg)),
                        Some(Ok((out, e))) => if j < e <= ts.len() {
                            spec_source_from(defs, ts, e, true, acc + out)
                        } else {
                            None
                        },
                    },
                }
            } else {
                spec_source_from(defs, ts, j + 1, processed, acc.push(ts[j]))
            },
            _ => spec_source_from(defs, ts, j + 1, processed, acc.push(ts[j])),
        }
    }
}

/// One expansion pass over a whole line.
pub open spec fn spec_source_line(defs: Map<Seq<char>, SDefine>, ts: Seq<SToken>) -> Option<
    Result<(bool, Seq<SToken>), Seq<char>>,
> {
    spec_source_from(defs, ts, 0, false, Seq::empty())
}

/// One expansion pass over the line `tt` with the macros of `state`; `None`
/// when the parenthesis counter of a macro call would overflow.
pub fn preprocess_source_line(tt: &Vec<Token>, state: &PreprocessState) -> (r: Option<Result<(bool, Vec<Token>), PreprocessError>>)
    requires
        state.wf(),
    ensures
        match spec_source_line(state@.defines, tokens_view(tt@)) {
            Some(Ok((p, out))) => r matches Some(Ok((q, v))) && q == p && tokens_view(v@) == out,
            Some(Err(msg)) => r matches Some(Err(e)) && e.0@ == msg,
            None => r is None,
        },
{
    let ghost defs = state@.defines;
    let ghost tv = tokens_view(tt@);
    let mut result: Vec<Token> = Vec::new();
    let mut processed = false;
    let mut j: usize = 0;
    assert(tokens_view(result@) =~= Seq::<SToken>::empty());
    while j < tt.len()
        invariant
            state.wf(),
            defs == state@.defines,
            tv == tokens_view(tt@),
            j <= tt.len(),
            spec_source_line(defs, tv) == spec_source_from(defs, tv, j as int, processed, tokens_view(result@)),
        decreases tt.len() - j,
    {
        assert(tv[j as int] == tt@[j as int]@);
        match &tt[j] {
            Token::Identifier(name, _) => {
                match state.find(name) {
                    Some(i) => {
                        proof {
                            lemma_defines_map_at(state.defines@, i as int);
                            lemma_wf_defines(state, name@);
                        }
                        processed = true;
                        match &state.defines[i].1 {
                            Define::Replace(c) => {
                                extend_tokens(&mut result, c);
                                j = j + 1;
                            },
                            Define::Func(f) => {
                                proof {
                                    lemma_collect_end(tv, j + 1, 0, Seq::empty(), Seq::empty());
                                }
                                match f.apply(name, tt, j + 1, &mut result) {
                                    Some(Ok(e)) => {
                                        j = e;
                                    },
                                    Some(Err(err)) => {
                                        return Some(Err(err));
                                    },
                                    None => {
                                        return None;
                                    },
                                }
                            },
                        }
                    },
                    None => {
                        let ghost before = result@;
                        result.push(tt[j].copy());
                        assert(tokens_view(result@) =~= tokens_view(before).push(tv[j as int]));
                        j = j + 1;
                    },
                }
            },
            _ => {
                let ghost before = result@;
                result.push(tt[j].copy());
                assert(tokens_view(result@) =~= tokens_view(before).push(tv[j as int]));
                j = j + 1;
            },
        }
    }
    Some(Ok((processed, result)))
}

/// Expansion passes repeated while a pass expanded a macro, at most `fuel`
/// passes after the first; `None` when that is not enough, or when a pass
/// overflows.
pub open spec fn spec_expand_fuel(defs: Map<Seq<char>, SDefine>, ts: Seq<SToken>, fuel: nat) -> Option<
    Result<Seq<SToken>, Seq<char>>,
>
    decreases fuel,
{
    match spec_source_line(defs, ts) {
        None => None,
        Some(Err(msg)) => Some(Err(msg)),
        Some(Ok((p, out))) => if !p {
            Some(Ok(out))
        } else if fuel == 0 {
            None
        } else {
            spec_expand_fuel(defs, out, (fuel - 1) as nat)
        },
    }
}

/// The expansion of a line comes to an end.
pub open spec fn expand_ends(defs: Map<Seq<char>, SDefine>, ts: Seq<SToken>) -> bool {
    exists|fuel: nat| #[trigger] spec_expand_fuel(defs, ts, fuel) is Some
}

/// The full expansion of a line: passes are repeated until one expands no
/// macro.
pub open spec fn spec_expand(defs: Map<Seq<char>, SDefine>, ts: Seq<SToken>) -> Option<Result<Seq<SToken>, Seq<char>>> {
    if expand_ends(defs, ts) {
        spec_expand_fuel(defs, ts, choose|fuel: nat| #[trigger] spec_expand_fuel(defs, ts, fuel) is Some)
    } else {
        None
    }
}

/// More passes change nothing once the expansion has ended.
pub proof fn lemma_expand_fuel_mono(defs: Map<Seq<char>, SDefine>, ts: Seq<SToken>, a: nat, b: nat)
    requires
        a <= b,
        spec_expand_fuel(defs, ts, a) is Some,
    ensures
        spec_expand_fuel(defs, ts, b) == spec_expand_fuel(defs, ts, a),
    decreases a,
{
    match spec_source_line(defs, ts) {
        Some(Ok((p, out))) => if p && a > 0 {
            lemma_expand_fuel_mono(defs, out, (a - 1) as nat, (b - 1) as nat);
        },
        _ => {},
    }
}

/// Two ends of the same expansion agree.
pub proof fn lemma_expand_fuel_unique(defs: Map<Seq<char>, SDefine>, ts: Seq<SToken>, a: nat, b: nat)
    requires
        spec_expand_fuel(defs, ts, a) is Some,
        spec_expand_fuel(defs, ts, b) is Some,
    ensures
        spec_expand_fuel(defs, ts, b) == spec_expand_fuel(defs, ts, a),
{
    if a <= b {
        lemma_expand_fuel_mono(defs, ts, a, b);
    } else {
        lemma_expand_fuel_mono(defs, ts, b, a);
    }
}

/// Expands the line `ts` fully with the macros of `state`.
pub fn expand_line(ts: &Vec<Token>, state: &PreprocessState) -> (r: Result<Vec<Token>, PreprocessError>)
    requires
        state.wf(),
        spec_expand(state@.defines, tokens_view(ts@)) is Some,
    ensures
        match spec_expand(state@.defines, tokens_view(ts@)) {
            Some(Ok(out)) => r matches Ok(v) && tokens_view(v@) == out,
            Some(Err(msg)) => r matches Err(e) && e.0@ == msg,
            None => false,
        },
{
    let ghost defs = state@.defines;
    let ghost tv = tokens_view(ts@);
    let ghost n: nat = choose|fuel: nat| #[trigger] spec_expand_fuel(defs, tv, fuel) is Some;
    let ghost mut fuel: nat = n;
    let mut cur = copy_tokens(ts);
    loop
        invariant
            state.wf(),
            defs == state@.defines,
            tv == tokens_view(ts@),
            spec_expand_fuel(defs, tv, n) is Some,
            spec_expand_fuel(defs, tv, n) == spec_expand_fuel(defs, tokens_view(cur@), fuel),
            spec_expand(defs, tv) == spec_expand_fuel(defs, tv, n),
        decreases fuel,
    {
        match preprocess_source_line(&cur, state) {
            None => {
                proof {
                    assert(spec_expand_fuel(defs, tokens_view(cur@), fuel) is None);
                    assert(false);
                }
                return Err(PreprocessError(String::new()));
            },
            Some(Err(e)) => {
                return Err(e);
            },
            Some(Ok((p, out))) => {
                if !p {
                    return Ok(out);
                }
                proof {
                    fuel = (fuel - 1) as nat;
                }
                cur = out;
            },
        }
    }
}

/// Expands the line `ts` with the macros of `state`, in at most `passes`
/// passes after the first; `None` when that is not enough, or when the
/// parenthesis counter of a macro call would overflow.
pub fn expand_line_bounded(ts: &Vec<Token>, state: &PreprocessState, passes: usize) -> (r: Option<Result<Vec<Token>, PreprocessError>>)
    requires
        state.wf(),
    ensures
        match spec_expand_fuel(state@.defines, tokens_view(ts@), passes as nat) {
            Some(Ok(out)) => r matches Some(Ok(v)) && tokens_view(v@) == out,
            Some(Err(msg)) => r matches Some(Err(e)) && e.0@ == msg,
            None => r is None,
        },
{
    let ghost defs = state@.defines;
    let ghost tv = tokens_view(ts@);
    let mut left = passes;
    let mut cur = copy_tokens(ts);
    loop
        invariant
            state.wf(),
            defs == state@.defines,
            tv == tokens_view(ts@),
            spec_expand_fuel(defs, tv, passes as nat) == spec_expand_fuel(defs, tokens_view(cur@), left as nat),
        decreases left,
    {
        match preprocess_source_line(&cur, state) {
            None => {
                return None;
            },
            Some(Err(e)) => {
                return Some(Err(e));
            },
            Some(Ok((p, out))) => {
                if !p {
                    return Some(Ok(out));
                }
                if left == 0 {
                    return None;
                }
                left = left - 1;
                cur = out;
            },
        }
    }
}

} // verus!
