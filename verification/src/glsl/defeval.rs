//! Evaluation of constant expressions, as in preprocessor conditions.
use vstd::prelude::*;
use crate::text::{append_str, chars_of, has_tag_nocase, string_of, tag_nocase_at};
use crate::glsl::expression::{BinaryOp, Expression, SExpr, view_expr, lemma_view_exprs_len};
use crate::glsl::token::{Constant, Identifier, SConstant, basic_type_text};

verus! {

/// Why an expression has no constant value, in words.
#[derive(Debug)]
pub struct EvalError(String);

impl View for EvalError {
    type V = Seq<char>;

    closed spec fn view(&self) -> Seq<char> {
        self.0@
    }
}

impl EvalError {
    /// The message.
    pub fn into_string(self) -> (r: String)
        ensures
            r@ == self@,
    {
        self.0
    }
}

impl From<&'static str> for EvalError {
    /// The error with the message `s`.
    fn from(s: &'static str) -> (r: EvalError)
        ensures
            r@ == s@,
    {
        eval_error(s)
    }
}

/// `String` values are known only by their views, so no spec function names
/// the one `from` builds: its meaning is the `ensures` of `from` above.
impl vstd::std_specs::convert::FromSpecImpl<&'static str> for EvalError {
    open spec fn obeys_from_spec() -> bool {
        false
    }

    closed spec fn from_spec(v: &'static str) -> EvalError {
        EvalError(choose|m: String| m@ == v@)
    }
}

fn eval_error(t: &str) -> (e: EvalError)
    ensures
        e@ == t@,
{
    let mut v: Vec<char> = Vec::new();
    append_str(&mut v, t);
    assert(v@ =~= t@);
    EvalError(string_of(&v))
}

pub open spec fn option_constant_view(c: Option<Constant>) -> Option<SConstant> {
    match c {
        Some(c) => Some(c@),
        None => None,
    }
}

/// A boolean as the integer 1 or 0; other constants unchanged.
pub open spec fn const_to_int(c: SConstant) -> SConstant {
    match c {
        SConstant::Bool(b) => SConstant::Integer(if b { 1 } else { 0 }),
        a => a,
    }
}

/// The value of a name: its constant as an integer where it is a boolean, 0
/// where the name has no value.
pub open spec fn lookup_value(c: Option<SConstant>) -> SConstant {
    match c {
        Some(c) => const_to_int(c),
        None => SConstant::Integer(0),
    }
}

/// The names an expression is evaluated against.
pub trait EvalContext {
    /// The constant of the name `i`.
    spec fn lookup(&self, i: Seq<char>) -> Option<SConstant>;

    /// Whether the name `i` is defined.
    spec fn has_name(&self, i: Seq<char>) -> bool;

    /// The constant of the name `i`.
    fn get(&self, i: &Identifier) -> (r: Option<Constant>)
        ensures
            option_constant_view(r) == self.lookup(i@),
    ;

    /// Whether the name `i` is defined.
    fn defined(&self, i: &Identifier) -> (r: bool)
        ensures
            r == self.has_name(i@),
    ;

    /// The value of the name `i` (see [`lookup_value`]).
    fn value(&self, i: &Identifier) -> (r: Constant)
        ensures
            r@ == lookup_value(self.lookup(i@)),
    {
        match self.get(i) {
            Some(c) => bool_constant_to_integer(c),
            None => Constant::Integer(0),
        }
    }
}

/// The first constant given to the name `i` in `v[k..]`.
pub open spec fn first_value(v: Seq<(Identifier, Constant)>, i: Seq<char>, k: int) -> Option<SConstant>
    decreases v.len() - k,
{
    if !(0 <= k < v.len()) {
        None
    } else if v[k].0@ == i {
        Some(v[k].1@)
    } else {
        first_value(v, i, k + 1)
    }
}

/// Names and their constants, in a list; the first entry of a name counts.
#[derive(Debug)]
pub struct EvalContextSimple {
    pub variables: Vec<(Identifier, Constant)>,
}

impl Default for EvalContextSimple {
    /// The context without names.
    fn default() -> (r: EvalContextSimple)
        ensures
            r.variables@.len() == 0,
    {
        EvalContextSimple { variables: Vec::new() }
    }
}

impl EvalContextSimple {
    fn find(&self, i: &Identifier) -> (r: Option<usize>)
        ensures
            match r {
                Some(k) => k < self.variables@.len() && first_value(self.variables@, i@, 0) == Some(self.variables@[k as int].1@),
                None => first_value(self.variables@, i@, 0) is None,
            },
    {
        let mut k: usize = 0;
        while k < self.variables.len()
            invariant
                k <= self.variables.len(),
                first_value(self.variables@, i@, 0) == first_value(self.variables@, i@, k as int),
            decreases self.variables.len() - k,
        {
            if crate::glsl::token::string_eq(&self.variables[k].0, i) {
                return Some(k);
            }
            k = k + 1;
        }
        None
    }
}

impl EvalContext for EvalContextSimple {
    open spec fn lookup(&self, i: Seq<char>) -> Option<SConstant> {
        first_value(self.variables@, i, 0)
    }

    open spec fn has_name(&self, i: Seq<char>) -> bool {
        first_value(self.variables@, i, 0) is Some
    }

    fn get(&self, i: &Identifier) -> (r: Option<Constant>) {
        match self.find(i) {
            Some(k) => Some(self.variables[k].1.copy()),
            None => None,
        }
    }

    fn defined(&self, i: &Identifier) -> (r: bool) {
        self.find(i).is_some()
    }
}

/// A boolean as the integer 1 or 0; other constants unchanged.
pub fn bool_constant_to_integer(c: Constant) -> (r: Constant)
    ensures
        r@ == const_to_int(c@),
{
    match c {
        Constant::Bool(b) => Constant::Integer(if b { 1 } else { 0 }),
        a => a,
    }
}

// ---------------------------------------------------------------------------
// The semantics
// ---------------------------------------------------------------------------

pub open spec fn bool_arith_message() -> Seq<char> {
    "bool arithmetic syntax is not supported in constant expression"@
}

pub open spec fn float_arith_message() -> Seq<char> {
    "float arithmetic is not supported in constant expression"@
}

/// The unary operators of constant expressions.
#[derive(Debug, Clone, Copy, PartialEq, Eq, Structural)]
pub enum UnaryOp {
    Inc,
    Dec,
    Plus,
    Minus,
    Not,
    Tilde,
}

pub open spec fn in_i64(x: int) -> bool {
    i64::MIN <= x <= i64::MAX
}

pub open spec fn abs(x: int) -> int {
    if x < 0 { -x } else { x }
}

/// Division rounding toward zero.
pub open spec fn trunc_div(a: int, b: int) -> int {
    let q = abs(a) / abs(b);
    if (a < 0) != (b < 0) { -q } else { q }
}

/// The remainder of [`trunc_div`]: it has the sign of `a`.
pub open spec fn trunc_rem(a: int, b: int) -> int {
    let r = abs(a) % abs(b);
    if a < 0 { -r } else { r }
}

/// A unary operator applied to a value; `None` where the integer operation
/// overflows.
pub open spec fn unary_value(op: UnaryOp, v: SConstant) -> Option<Result<SConstant, Seq<char>>> {
    match v {
        SConstant::Bool(b) => match op {
            UnaryOp::Not => Some(Ok(SConstant::Bool(!b))),
            UnaryOp::Tilde => Some(Ok(SConstant::Bool(!b))),
            _ => Some(Err(bool_arith_message())),
        },
        SConstant::Float(f) => match op {
            UnaryOp::Plus => Some(Ok(SConstant::Float(f))),
            _ => Some(Err(float_arith_message())),
        },
        SConstant::Integer(i) => match op {
            UnaryOp::Inc => if in_i64(i + 1) { Some(Ok(SConstant::Integer((i + 1) as i64))) } else { None },
            UnaryOp::Dec => if in_i64(i - 1) { Some(Ok(SConstant::Integer((i - 1) as i64))) } else { None },
            UnaryOp::Plus => Some(Ok(SConstant::Integer(i))),
            UnaryOp::Minus => if in_i64(-i) { Some(Ok(SConstant::Integer((-i) as i64))) } else { None },
            UnaryOp::Not => Some(Ok(SConstant::Integer(if i == 0 { 1 } else { 0 }))),
            UnaryOp::Tilde => Some(Ok(SConstant::Integer((-1 - i) as i64))),
        },
    }
}

pub open spec fn int_of_bool(b: bool) -> i64 {
    if b { 1 } else { 0 }
}

/// A binary operator applied to two integers; `None` where the operation
/// overflows, divides by zero or shifts by an amount outside `0..64`.
pub open spec fn int_binary(op: BinaryOp, i: i64, j: i64) -> Option<i64> {
    match op {
        BinaryOp::Or => Some(int_of_bool(i != 0 || j != 0)),
        BinaryOp::And => Some(int_of_bool(i != 0 && j != 0)),
        BinaryOp::Equal => Some(int_of_bool(i == j)),
        BinaryOp::NonEqual => Some(int_of_bool(i != j)),
        BinaryOp::LT => Some(int_of_bool(i < j)),
        BinaryOp::GT => Some(int_of_bool(i > j)),
        BinaryOp::LTE => Some(int_of_bool(i <= j)),
        BinaryOp::GTE => Some(int_of_bool(i >= j)),
        BinaryOp::LShift => if 0 <= j < 64 { Some(((i as u64) << (j as u64)) as i64) } else { None },
        BinaryOp::RShift => if 0 <= j < 64 { Some(i >> j) } else { None },
        BinaryOp::Add => if in_i64(i + j) { Some((i + j) as i64) } else { None },
        BinaryOp::Sub => if in_i64(i - j) { Some((i - j) as i64) } else { None },
        BinaryOp::Mult => if in_i64(i * j) { Some((i * j) as i64) } else { None },
        BinaryOp::Div => if j == 0 || (i == i64::MIN && j == -1) {
            None
        } else {
            Some(trunc_div(i as int, j as int) as i64)
        },
        BinaryOp::Mod => if j == 0 || (i == i64::MIN && j == -1) {
            None
        } else {
            Some(trunc_rem(i as int, j as int) as i64)
        },
        _ => None,
    }
}

/// A binary operator applied to two values: an error where one is a boolean,
/// then where one is a floating constant; else the integer operation.
pub open spec fn binary_value(op: BinaryOp, v1: SConstant, v2: SConstant) -> Option<Result<SConstant, Seq<char>>> {
    if v1 is Bool || v2 is Bool {
        Some(Err(bool_arith_message()))
    } else if v1 is Float || v2 is Float {
        Some(Err(float_arith_message()))
    } else {
        match (v1, v2) {
            (SConstant::Integer(i), SConstant::Integer(j)) => match int_binary(op, i, j) {
                Some(r) => Some(Ok(SConstant::Integer(r))),
                None => None,
            },
            _ => None,
        }
    }
}

/// The operators that constant expressions do not have.
pub open spec fn unsupported_binary(op: BinaryOp) -> bool {
    op == BinaryOp::Xor || op == BinaryOp::BitOr || op == BinaryOp::BitXor || op == BinaryOp::BitAnd
}

/// The name of the function that tells whether a macro is defined, in any
/// ASCII case.
pub open spec fn is_defined_name(t: Seq<char>) -> bool {
    t.len() == 7 && has_tag_nocase(t, 0, "defined"@)
}

/// The value of the constant expression `e` with the names of `ctx` (0 for the
/// empty expression); an error
/// message for what constant expressions do not have; `None` where an integer
/// operation overflows, divides by zero or shifts out of range.
pub open spec fn spec_eval<T: EvalContext>(e: SExpr, ctx: &T) -> Option<Result<SConstant, Seq<char>>>
    decreases e,
{
    match e {
        SExpr::Empty => Some(Ok(SConstant::Integer(0))),
        SExpr::Identifier(i) => Some(Ok(lookup_value(ctx.lookup(i)))),
        SExpr::Constant(c) => Some(Ok(const_to_int(c))),
        SExpr::Bracket(_, _) => Some(Err("bracket syntax is not supported in constant expression"@)),
        SExpr::FunctionCall(t, args) => if is_defined_name(basic_type_text(t)) && args.len() == 1
            && args[0] is Identifier {
            Some(Ok(SConstant::Integer(int_of_bool(ctx.has_name(args[0]->Identifier_0)))))
        } else {
            Some(Err("function call syntax is not supported in constant expression"@))
        },
        SExpr::DotField(_, _) => Some(Err("dot syntax is not supported in constant expression"@)),
        SExpr::PostInc(a) => spec_eval_unary(UnaryOp::Inc, spec_eval(*a, ctx)),
        SExpr::PostDec(a) => spec_eval_unary(UnaryOp::Dec, spec_eval(*a, ctx)),
        SExpr::PreInc(a) => spec_eval_unary(UnaryOp::Inc, spec_eval(*a, ctx)),
        SExpr::PreDec(a) => spec_eval_unary(UnaryOp::Dec, spec_eval(*a, ctx)),
        SExpr::Plus(a) => spec_eval_unary(UnaryOp::Plus, spec_eval(*a, ctx)),
        SExpr::Minus(a) => spec_eval_unary(UnaryOp::Minus, spec_eval(*a, ctx)),
        SExpr::Not(a) => spec_eval_unary(UnaryOp::Not, spec_eval(*a, ctx)),
        SExpr::Tilde(a) => spec_eval_unary(UnaryOp::Tilde, spec_eval(*a, ctx)),
        SExpr::Binary(op, a, b) => if unsupported_binary(op) {
            Some(Err("Operation not supported"@))
        } else {
            match spec_eval(*a, ctx) {
                Some(Ok(v1)) => match spec_eval(*b, ctx) {
                    Some(Ok(v2)) => binary_value(op, v1, v2),
                    other => other,
                },
                other => other,
            }
        },
        SExpr::Ternary(a, b, c) => match spec_eval(*a, ctx) {
            Some(Ok(v0)) => match spec_eval(*b, ctx) {
                Some(Ok(v1)) => match spec_eval(*c, ctx) {
                    Some(Ok(v2)) => match v0 {
                        SConstant::Float(_) => Some(Err(float_arith_message())),
                        SConstant::Integer(i) => if i != 0 { Some(Ok(v1)) } else { Some(Ok(v2)) },
                        SConstant::Bool(_) => Some(Ok(v2)),
                    },
                    other => other,
                },
                other => other,
            },
            other => other,
        },
        _ => Some(Err("Not supported operator"@)),
    }
}

/// A unary operator applied to an evaluation.
pub open spec fn spec_eval_unary(op: UnaryOp, r: Option<Result<SConstant, Seq<char>>>) -> Option<Result<SConstant, Seq<char>>> {
    match r {
        Some(Ok(v)) => unary_value(op, v),
        other => other,
    }
}

// ---------------------------------------------------------------------------
// The evaluator
// ---------------------------------------------------------------------------

fn magnitude(i: i64) -> (r: u64)
    ensures
        r == abs(i as int),
{
    if i >= 0 {
        i as u64
    } else {
        ((-(i + 1)) as u64) + 1
    }
}

fn eval_int_binary(op: BinaryOp, i: i64, j: i64) -> (r: i64)
    requires
        int_binary(op, i, j) is Some,
    ensures
        int_binary(op, i, j) == Some(r),
{
    match op {
        BinaryOp::Or => if i != 0 || j != 0 { 1 } else { 0 },
        BinaryOp::And => if i != 0 && j != 0 { 1 } else { 0 },
        BinaryOp::Equal => if i == j { 1 } else { 0 },
        BinaryOp::NonEqual => if i != j { 1 } else { 0 },
        BinaryOp::LT => if i < j { 1 } else { 0 },
        BinaryOp::GT => if i > j { 1 } else { 0 },
        BinaryOp::LTE => if i <= j { 1 } else { 0 },
        BinaryOp::GTE => if i >= j { 1 } else { 0 },
        BinaryOp::LShift => ((i as u64) << (j as u64)) as i64,
        BinaryOp::RShift => i >> j,
        BinaryOp::Add => i + j,
        BinaryOp::Sub => i - j,
        BinaryOp::Mult => i * j,
        BinaryOp::Div => {
            let q = magnitude(i) / magnitude(j);
            if (i < 0) != (j < 0) {
                if q == 9223372036854775808u64 {
                    i64::MIN
                } else {
                    -(q as i64)
                }
            } else {
                q as i64
            }
        },
        BinaryOp::Mod => {
            let m = magnitude(i) % magnitude(j);
            if i < 0 {
                -(m as i64)
            } else {
                m as i64
            }
        },
        _ => 0,
    }
}

fn eval_binary_value(op: BinaryOp, v1: Constant, v2: Constant) -> (r: Result<Constant, EvalError>)
    requires
        binary_value(op, v1@, v2@) is Some,
    ensures
        match binary_value(op, v1@, v2@) {
            Some(Ok(c)) => r matches Ok(v) && v@ == c,
            Some(Err(m)) => r matches Err(e) && e@ == m,
            None => false,
        },
{
    match (v1, v2) {
        (Constant::Integer(i), Constant::Integer(j)) => Ok(Constant::Integer(eval_int_binary(op, i, j))),
        (Constant::Bool(_), _) => Err(eval_error("bool arithmetic syntax is not supported in constant expression")),
        (_, Constant::Bool(_)) => Err(eval_error("bool arithmetic syntax is not supported in constant expression")),
        _ => Err(eval_error("float arithmetic is not supported in constant expression")),
    }
}

fn eval_unary_value(op: UnaryOp, v: Constant) -> (r: Result<Constant, EvalError>)
    requires
        unary_value(op, v@) is Some,
    ensures
        match unary_value(op, v@) {
            Some(Ok(c)) => r matches Ok(w) && w@ == c,
            Some(Err(m)) => r matches Err(e) && e@ == m,
            None => false,
        },
{
    match v {
        Constant::Bool(b) => match op {
            UnaryOp::Not => Ok(Constant::Bool(!b)),
            UnaryOp::Tilde => Ok(Constant::Bool(!b)),
            _ => Err(eval_error("bool arithmetic syntax is not supported in constant expression")),
        },
        Constant::Float(f) => match op {
            UnaryOp::Plus => Ok(Constant::Float(f)),
            _ => Err(eval_error("float arithmetic is not supported in constant expression")),
        },
        Constant::Integer(i) => match op {
            UnaryOp::Inc => Ok(Constant::Integer(i + 1)),
            UnaryOp::Dec => Ok(Constant::Integer(i - 1)),
            UnaryOp::Plus => Ok(Constant::Integer(i)),
            UnaryOp::Minus => Ok(Constant::Integer(-i)),
            UnaryOp::Not => Ok(Constant::Integer(if i == 0 { 1 } else { 0 })),
            UnaryOp::Tilde => Ok(Constant::Integer(-1 - i)),
        },
    }
}

fn eval_unary<T: EvalContext>(op: UnaryOp, a: &Expression, ctx: &T) -> (r: Result<Constant, EvalError>)
    requires
        spec_eval_unary(op, spec_eval(view_expr(*a), ctx)) is Some,
    ensures
        match spec_eval_unary(op, spec_eval(view_expr(*a), ctx)) {
            Some(Ok(c)) => r matches Ok(w) && w@ == c,
            Some(Err(m)) => r matches Err(e) && e@ == m,
            None => false,
        },
    decreases view_expr(*a), 1int,
{
    match eval_expr(a, ctx) {
        Ok(v) => eval_unary_value(op, v),
        Err(e) => Err(e),
    }
}

fn eval_expr<T: EvalContext>(e: &Expression, ctx: &T) -> (r: Result<Constant, EvalError>)
    requires
        spec_eval(view_expr(*e), ctx) is Some,
    ensures
        match spec_eval(view_expr(*e), ctx) {
            Some(Ok(c)) => r matches Ok(w) && w@ == c,
            Some(Err(m)) => r matches Err(err) && err@ == m,
            None => false,
        },
    decreases view_expr(*e), 0int,
{
    match e {
        Expression::Empty => Ok(Constant::Integer(0)),
        Expression::Identifier(i) => Ok(ctx.value(i)),
        Expression::Constant(c) => Ok(bool_constant_to_integer(c.copy())),
        Expression::Bracket(_, _) => Err(eval_error("bracket syntax is not supported in constant expression")),
        Expression::FunctionCall(t, args) => {
            let name = chars_of(t.to_string().as_str());
            proof {
                lemma_view_exprs_len(args@);
            }
            if name.len() == 7 && tag_nocase_at(&name, 0, "defined") && args.len() == 1 {
                match &args[0] {
                    Expression::Identifier(ident) => {
                        return Ok(Constant::Integer(if ctx.defined(ident) { 1 } else { 0 }));
                    },
                    _ => {},
                }
            }
            Err(eval_error("function call syntax is not supported in constant expression"))
        },
        Expression::DotField(_, _) => Err(eval_error("dot syntax is not supported in constant expression")),
        Expression::PostInc(a) => eval_unary(UnaryOp::Inc, a, ctx),
        Expression::PostDec(a) => eval_unary(UnaryOp::Dec, a, ctx),
        Expression::PreInc(a) => eval_unary(UnaryOp::Inc, a, ctx),
        Expression::PreDec(a) => eval_unary(UnaryOp::Dec, a, ctx),
        Expression::Plus(a) => eval_unary(UnaryOp::Plus, a, ctx),
        Expression::Minus(a) => eval_unary(UnaryOp::Minus, a, ctx),
        Expression::Not(a) => eval_unary(UnaryOp::Not, a, ctx),
        Expression::Tilde(a) => eval_unary(UnaryOp::Tilde, a, ctx),
        Expression::Binary(op, a, b) => {
            if *op == BinaryOp::Xor || *op == BinaryOp::BitOr || *op == BinaryOp::BitXor || *op == BinaryOp::BitAnd {
                return Err(eval_error("Operation not supported"));
            }
            let v1 = match eval_expr(a, ctx) {
                Ok(v) => v,
                Err(err) => {
                    return Err(err);
                },
            };
            let v2 = match eval_expr(b, ctx) {
                Ok(v) => v,
                Err(err) => {
                    return Err(err);
                },
            };
            eval_binary_value(*op, v1, v2)
        },
        Expression::Ternary(a, b, c) => {
            let v0 = match eval_expr(a, ctx) {
                Ok(v) => v,
                Err(err) => {
                    return Err(err);
                },
            };
            let v1 = match eval_expr(b, ctx) {
                Ok(v) => v,
                Err(err) => {
                    return Err(err);
                },
            };
            let v2 = match eval_expr(c, ctx) {
                Ok(v) => v,
                Err(err) => {
                    return Err(err);
                },
            };
            match v0 {
                Constant::Float(_) => Err(eval_error("float arithmetic is not supported in constant expression")),
                Constant::Integer(i) => if i != 0 { Ok(v1) } else { Ok(v2) },
                Constant::Bool(_) => Ok(v2),
            }
        },
        _ => Err(eval_error("Not supported operator")),
    }
}

/// Expressions with a constant value.
pub trait Eval {
    /// The expression as a constant expression.
    spec fn model(&self) -> SExpr;

    /// Evaluates the expression with the names of `ctx` (see [`spec_eval`]).
    fn eval_constant<T: EvalContext>(&self, ctx: &T) -> (r: Result<Constant, EvalError>)
        requires
            spec_eval(self.model(), ctx) is Some,
        ensures
            match spec_eval(self.model(), ctx) {
                Some(Ok(c)) => r matches Ok(w) && w@ == c,
                Some(Err(m)) => r matches Err(e) && e@ == m,
                None => false,
            },
    ;
}

impl Eval for Expression {
    open spec fn model(&self) -> SExpr {
        view_expr(*self)
    }

    fn eval_constant<T: EvalContext>(&self, ctx: &T) -> (r: Result<Constant, EvalError>) {
        eval_expr(self, ctx)
    }
}

// ---------------------------------------------------------------------------
// Laws
// ---------------------------------------------------------------------------

/// A constant expression never evaluates to a boolean: booleans, from
/// literals and from names, are evaluated as the integers 1 and 0.
pub proof fn law_eval_never_bool<T: EvalContext>(e: SExpr, ctx: &T)
    ensures
        spec_eval(e, ctx) matches Some(Ok(v)) ==> !(v is Bool),
    decreases e,
{
    match e {
        SExpr::PostInc(a) => law_eval_never_bool(*a, ctx),
        SExpr::PostDec(a) => law_eval_never_bool(*a, ctx),
        SExpr::PreInc(a) => law_eval_never_bool(*a, ctx),
        SExpr::PreDec(a) => law_eval_never_bool(*a, ctx),
        SExpr::Plus(a) => law_eval_never_bool(*a, ctx),
        SExpr::Minus(a) => law_eval_never_bool(*a, ctx),
        SExpr::Not(a) => law_eval_never_bool(*a, ctx),
        SExpr::Tilde(a) => law_eval_never_bool(*a, ctx),
        SExpr::Binary(_, a, b) => {
            law_eval_never_bool(*a, ctx);
            law_eval_never_bool(*b, ctx);
        },
        SExpr::Ternary(a, b, c) => {
            law_eval_never_bool(*a, ctx);
            law_eval_never_bool(*b, ctx);
            law_eval_never_bool(*c, ctx);
        },
        _ => {},
    }
}

/// Comparisons and the logical operators `||` and `&&` evaluate to 1 or 0.
pub proof fn law_comparison_is_zero_or_one<T: EvalContext>(op: BinaryOp, a: SExpr, b: SExpr, ctx: &T)
    requires
        op == BinaryOp::Or || op == BinaryOp::And || op == BinaryOp::Equal || op == BinaryOp::NonEqual
            || op == BinaryOp::LT || op == BinaryOp::GT || op == BinaryOp::LTE || op == BinaryOp::GTE,
    ensures
        spec_eval(SExpr::Binary(op, Box::new(a), Box::new(b)), ctx) matches Some(Ok(v))
            ==> (v == SConstant::Integer(0) || v == SConstant::Integer(1)),
{
}

/// `defined(NAME)` evaluates to 1 when the context defines `NAME` and to 0
/// otherwise.
pub proof fn law_defined_tells_definition<T: EvalContext>(t: crate::glsl::token::SBasicType, name: Seq<char>, ctx: &T)
    requires
        is_defined_name(basic_type_text(t)),
    ensures
        spec_eval(SExpr::FunctionCall(t, seq![SExpr::Identifier(name)]), ctx)
            == Some(Ok::<SConstant, Seq<char>>(SConstant::Integer(if ctx.has_name(name) { 1 } else { 0 }))),
{
}

/// An integer-valued evaluation.
pub open spec fn int_result(v: int) -> Option<Result<SConstant, Seq<char>>> {
    Some(Ok(SConstant::Integer(v as i64)))
}

/// Comparisons and logical operators on two integer operands give the truth
/// value, 1 or 0, of the matching comparison of the operands' values; `+`,
/// `-` and `*` give the sum, difference and product where it fits in 64
/// bits, and `/` and `%` the quotient and remainder of non-negative integers
/// by positive ones.
pub proof fn law_integer_binary_operators<T: EvalContext>(op: BinaryOp, a: SExpr, b: SExpr, ctx: &T, i: i64, j: i64)
    requires
        spec_eval(a, ctx) == int_result(i as int),
        spec_eval(b, ctx) == int_result(j as int),
    ensures
        ({
            let r = spec_eval(SExpr::Binary(op, Box::new(a), Box::new(b)), ctx);
            &&& op == BinaryOp::LT ==> r == int_result(if i < j { 1 } else { 0 })
            &&& op == BinaryOp::GT ==> r == int_result(if i > j { 1 } else { 0 })
            &&& op == BinaryOp::LTE ==> r == int_result(if i <= j { 1 } else { 0 })
            &&& op == BinaryOp::GTE ==> r == int_result(if i >= j { 1 } else { 0 })
            &&& op == BinaryOp::Equal ==> r == int_result(if i == j { 1 } else { 0 })
            &&& op == BinaryOp::NonEqual ==> r == int_result(if i != j { 1 } else { 0 })
            &&& op == BinaryOp::And ==> r == int_result(if i != 0 && j != 0 { 1 } else { 0 })
            &&& op == BinaryOp::Or ==> r == int_result(if i != 0 || j != 0 { 1 } else { 0 })
            &&& op == BinaryOp::Add && i64::MIN <= i + j <= i64::MAX ==> r == int_result(i + j)
            &&& op == BinaryOp::Sub && i64::MIN <= i - j <= i64::MAX ==> r == int_result(i - j)
            &&& op == BinaryOp::Mult && i64::MIN <= i * j <= i64::MAX ==> r == int_result(i * j)
            &&& op == BinaryOp::Div && i >= 0 && j > 0 ==> r == int_result((i as int) / (j as int))
            &&& op == BinaryOp::Mod && i >= 0 && j > 0 ==> r == int_result((i as int) % (j as int))
        }),
{
}

/// The unary operators on an integer operand: `+` keeps it, `-` negates it
/// (where that fits in 64 bits), `!` gives 1 for zero and 0 otherwise, `~`
/// gives the bitwise complement `-1 - i`, and `++`/`--` (either side) add or
/// subtract one (where that fits).
pub proof fn law_integer_unary_operators<T: EvalContext>(a: SExpr, ctx: &T, i: i64)
    requires
        spec_eval(a, ctx) == int_result(i as int),
    ensures
        spec_eval(SExpr::Plus(Box::new(a)), ctx) == int_result(i as int),
        i != i64::MIN ==> spec_eval(SExpr::Minus(Box::new(a)), ctx) == int_result(-i),
        spec_eval(SExpr::Not(Box::new(a)), ctx) == int_result(if i == 0 { 1 } else { 0 }),
        spec_eval(SExpr::Tilde(Box::new(a)), ctx) == int_result(-1 - i),
        i != i64::MAX ==> spec_eval(SExpr::PreInc(Box::new(a)), ctx) == int_result(i + 1)
            && spec_eval(SExpr::PostInc(Box::new(a)), ctx) == int_result(i + 1),
        i != i64::MIN ==> spec_eval(SExpr::PreDec(Box::new(a)), ctx) == int_result(i - 1)
            && spec_eval(SExpr::PostDec(Box::new(a)), ctx) == int_result(i - 1),
{
}

/// `c ? x : y` with an integer condition gives the value of `x` when the
/// condition is not zero, and of `y` when it is.
pub proof fn law_ternary_chooses<T: EvalContext>(c: SExpr, x: SExpr, y: SExpr, ctx: &T, k: i64, vx: SConstant, vy: SConstant)
    requires
        spec_eval(c, ctx) == int_result(k as int),
        spec_eval(x, ctx) == Some(Ok::<SConstant, Seq<char>>(vx)),
        spec_eval(y, ctx) == Some(Ok::<SConstant, Seq<char>>(vy)),
    ensures
        spec_eval(SExpr::Ternary(Box::new(c), Box::new(x), Box::new(y)), ctx)
            == Some(Ok::<SConstant, Seq<char>>(if k != 0 { vx } else { vy })),
{
}

/// A name evaluates to its integer value, a boolean name to 1 or 0, and a
/// name without a value to 0.
pub proof fn law_name_value<T: EvalContext>(name: Seq<char>, ctx: &T)
    ensures
        ctx.lookup(name) matches Some(SConstant::Integer(v)) ==> spec_eval(SExpr::Identifier(name), ctx) == int_result(v as int),
        ctx.lookup(name) matches Some(SConstant::Bool(b)) ==> spec_eval(SExpr::Identifier(name), ctx) == int_result(if b { 1 } else { 0 }),
        ctx.lookup(name) is None ==> spec_eval(SExpr::Identifier(name), ctx) == int_result(0),
{
}

} // verus!
