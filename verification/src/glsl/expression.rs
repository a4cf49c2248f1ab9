//! GLSL expressions and their grammar.
//!
//! The grammar reads characters. Every rule skips whitespace (space, tab, CR,
//! LF) before each of its parts, except inside a function call between the
//! callee and `(`, before `void`, and inside the operator spellings. A rule
//! that reads a list of operands (`a * b * c`) reads each operator directly
//! after the previous operand; whitespace after an operand is skipped only
//! where a postfix or binary level starts to look for its operators.
use vstd::prelude::*;
use crate::text::{skip_ws, skip_ws_at, has_tag, tag_at, lemma_skip_ws_bounds};
use crate::glsl::token::{
    BasicType, Constant, Identifier, SBasicType, SConstant, spec_basic_type, spec_constant,
    spec_identifier, basic_type, constant, identifier,
};

verus! {

/// Binary operators, from the lowest precedence to the highest.
#[derive(Debug, Clone, Copy, PartialEq, Eq, Structural)]
pub enum BinaryOp {
    Or,
    Xor,
    And,
    BitOr,
    BitXor,
    BitAnd,
    Equal,
    NonEqual,
    LT,
    GT,
    LTE,
    GTE,
    LShift,
    RShift,
    Add,
    Sub,
    Mult,
    Div,
    Mod,
}

/// Assignment operators.
#[derive(Debug, Clone, Copy, PartialEq, Eq, Structural)]
pub enum AssignOp {
    Equal,
    MulAssign,
    DivAssign,
    ModAssign,
    AddAssign,
    SubAssign,
    LeftAssign,
    RightAssign,
    AndAssign,
    XorAssign,
    OrAssign,
}

/// A GLSL expression.
#[derive(Debug, PartialEq)]
pub enum Expression {
    Identifier(Identifier),
    Constant(Constant),
    Bracket(Box<Expression>, Box<Expression>),
    FunctionCall(BasicType, Vec<Expression>),
    DotField(Box<Expression>, Identifier),
    PostInc(Box<Expression>),
    PostDec(Box<Expression>),
    PreInc(Box<Expression>),
    PreDec(Box<Expression>),
    Plus(Box<Expression>),
    Minus(Box<Expression>),
    Not(Box<Expression>),
    Tilde(Box<Expression>),
    Binary(BinaryOp, Box<Expression>, Box<Expression>),
    Ternary(Box<Expression>, Box<Expression>, Box<Expression>),
    Assign(AssignOp, Box<Expression>, Box<Expression>),
    Comma(Vec<Expression>),
    /// The empty expression of an empty statement.
    Empty,
}

/// The mathematical model of an [`Expression`].
pub ghost enum SExpr {
    Identifier(Seq<char>),
    Constant(SConstant),
    Bracket(Box<SExpr>, Box<SExpr>),
    FunctionCall(SBasicType, Seq<SExpr>),
    DotField(Box<SExpr>, Seq<char>),
    PostInc(Box<SExpr>),
    PostDec(Box<SExpr>),
    PreInc(Box<SExpr>),
    PreDec(Box<SExpr>),
    Plus(Box<SExpr>),
    Minus(Box<SExpr>),
    Not(Box<SExpr>),
    Tilde(Box<SExpr>),
    Binary(BinaryOp, Box<SExpr>, Box<SExpr>),
    Ternary(Box<SExpr>, Box<SExpr>, Box<SExpr>),
    Assign(AssignOp, Box<SExpr>, Box<SExpr>),
    Comma(Seq<SExpr>),
    Empty,
}

pub open spec fn view_expr(e: Expression) -> SExpr
    decreases e,
{
    match e {
        Expression::Identifier(i) => SExpr::Identifier(i@),
        Expression::Constant(c) => SExpr::Constant(c@),
        Expression::Bracket(a, b) => SExpr::Bracket(Box::new(view_expr(*a)), Box::new(view_expr(*b))),
        Expression::FunctionCall(t, args) => SExpr::FunctionCall(t@, view_exprs(args@)),
        Expression::DotField(a, f) => SExpr::DotField(Box::new(view_expr(*a)), f@),
        Expression::PostInc(a) => SExpr::PostInc(Box::new(view_expr(*a))),
        Expression::PostDec(a) => SExpr::PostDec(Box::new(view_expr(*a))),
        Expression::PreInc(a) => SExpr::PreInc(Box::new(view_expr(*a))),
        Expression::PreDec(a) => SExpr::PreDec(Box::new(view_expr(*a))),
        Expression::Plus(a) => SExpr::Plus(Box::new(view_expr(*a))),
        Expression::Minus(a) => SExpr::Minus(Box::new(view_expr(*a))),
        Expression::Not(a) => SExpr::Not(Box::new(view_expr(*a))),
        Expression::Tilde(a) => SExpr::Tilde(Box::new(view_expr(*a))),
        Expression::Binary(op, a, b) => SExpr::Binary(op, Box::new(view_expr(*a)), Box::new(view_expr(*b))),
        Expression::Ternary(a, b, c) => SExpr::Ternary(
            Box::new(view_expr(*a)),
            Box::new(view_expr(*b)),
            Box::new(view_expr(*c)),
        ),
        Expression::Assign(op, a, b) => SExpr::Assign(op, Box::new(view_expr(*a)), Box::new(view_expr(*b))),
        Expression::Comma(es) => SExpr::Comma(view_exprs(es@)),
        Expression::Empty => SExpr::Empty,
    }
}

pub open spec fn view_exprs(es: Seq<Expression>) -> Seq<SExpr>
    decreases es,
{
    if es.len() == 0 {
        Seq::empty()
    } else {
        view_exprs(es.drop_last()).push(view_expr(es.last()))
    }
}

impl View for Expression {
    type V = SExpr;

    open spec fn view(&self) -> SExpr {
        view_expr(*self)
    }
}

fn copy_exprs(es: &Vec<Expression>) -> (r: Vec<Expression>)
    ensures
        view_exprs(r@) == view_exprs(es@),
    decreases es,
{
    let mut r: Vec<Expression> = Vec::new();
    let mut i: usize = 0;
    proof {
        lemma_view_exprs_len(es@);
        assert(view_exprs(r@) =~= view_exprs(es@).subrange(0, 0));
    }
    while i < es.len()
        invariant
            i <= es.len(),
            view_exprs(es@).len() == es@.len(),
            forall|j: int| 0 <= j < es@.len() ==> #[trigger] view_exprs(es@)[j] == view_expr(es@[j]),
            view_exprs(r@) == view_exprs(es@).subrange(0, i as int),
            forall|j: int| 0 <= j < es@.len() ==> decreases_to!(es => #[trigger] es@[j]),
        decreases es.len() - i,
    {
        let e = es[i].copy();
        proof {
            lemma_view_exprs_push(r@, e);
        }
        r.push(e);
        assert(view_exprs(es@).subrange(0, i + 1) =~= view_exprs(es@).subrange(0, i as int).push(view_expr(es@[i as int])));
        i = i + 1;
    }
    assert(view_exprs(es@).subrange(0, es@.len() as int) =~= view_exprs(es@));
    r
}

impl Expression {
    /// A copy of the expression.
    pub fn copy(&self) -> (r: Expression)
        ensures
            r@ == self@,
        decreases self,
    {
        match self {
            Expression::Identifier(i) => Expression::Identifier(i.clone()),
            Expression::Constant(c) => Expression::Constant(c.copy()),
            Expression::Bracket(a, b) => Expression::Bracket(Box::new((**a).copy()), Box::new((**b).copy())),
            Expression::FunctionCall(t, args) => Expression::FunctionCall(t.copy(), copy_exprs(args)),
            Expression::DotField(a, f) => Expression::DotField(Box::new((**a).copy()), f.clone()),
            Expression::PostInc(a) => Expression::PostInc(Box::new((**a).copy())),
            Expression::PostDec(a) => Expression::PostDec(Box::new((**a).copy())),
            Expression::PreInc(a) => Expression::PreInc(Box::new((**a).copy())),
            Expression::PreDec(a) => Expression::PreDec(Box::new((**a).copy())),
            Expression::Plus(a) => Expression::Plus(Box::new((**a).copy())),
            Expression::Minus(a) => Expression::Minus(Box::new((**a).copy())),
            Expression::Not(a) => Expression::Not(Box::new((**a).copy())),
            Expression::Tilde(a) => Expression::Tilde(Box::new((**a).copy())),
            Expression::Binary(op, a, b) => Expression::Binary(*op, Box::new((**a).copy()), Box::new((**b).copy())),
            Expression::Ternary(a, b, c) => Expression::Ternary(
                Box::new((**a).copy()),
                Box::new((**b).copy()),
                Box::new((**c).copy()),
            ),
            Expression::Assign(op, a, b) => Expression::Assign(*op, Box::new((**a).copy()), Box::new((**b).copy())),
            Expression::Comma(es) => Expression::Comma(copy_exprs(es)),
            Expression::Empty => Expression::Empty,
        }
    }
}

pub proof fn lemma_view_exprs_push(es: Seq<Expression>, e: Expression)
    ensures
        view_exprs(es.push(e)) == view_exprs(es).push(view_expr(e)),
{
    assert(es.push(e).drop_last() =~= es);
}

pub proof fn lemma_view_exprs_len(es: Seq<Expression>)
    ensures
        view_exprs(es).len() == es.len(),
        forall|i: int| 0 <= i < es.len() ==> #[trigger] view_exprs(es)[i] == view_expr(es[i]),
    decreases es.len(),
{
    if es.len() > 0 {
        lemma_view_exprs_len(es.drop_last());
    }
}

/// A parse result viewed: the model of the expression and the end position.
pub open spec fn parsed(r: Option<(Expression, usize)>) -> Option<(SExpr, int)> {
    match r {
        Some((e, q)) => Some((e@, q as int)),
        None => None,
    }
}

/// Positions `a < b <= n`: a rule read something and stayed inside the text.
pub open spec fn adv(a: int, b: int, n: nat) -> bool {
    a < b && b <= n
}

// ---------------------------------------------------------------------------
// Operator tables
// ---------------------------------------------------------------------------

/// Number of operators of binary level `k` (7 = multiplicative ... 17 = logical or).
pub open spec fn level_op_count(k: int) -> int {
    if k == 7 {
        3
    } else if k == 8 || k == 9 || k == 11 {
        2
    } else if k == 10 {
        4
    } else {
        1
    }
}

/// Spelling of operator `i` of binary level `k`.
pub open spec fn level_op_text(k: int, i: int) -> Seq<char> {
    if k == 7 {
        if i == 0 { "*"@ } else if i == 1 { "/"@ } else { "%"@ }
    } else if k == 8 {
        if i == 0 { "+"@ } else { "-"@ }
    } else if k == 9 {
        if i == 0 { "<<"@ } else { ">>"@ }
    } else if k == 10 {
        if i == 0 { "<"@ } else if i == 1 { ">"@ } else if i == 2 { "<="@ } else { ">="@ }
    } else if k == 11 {
        if i == 0 { "=="@ } else { "!="@ }
    } else if k == 12 {
        "&"@
    } else if k == 13 {
        "^"@
    } else if k == 14 {
        "|"@
    } else if k == 15 {
        "&&"@
    } else if k == 16 {
        "^^"@
    } else {
        "||"@
    }
}

/// Operator `i` of binary level `k`.
pub open spec fn level_op(k: int, i: int) -> BinaryOp {
    if k == 7 {
        if i == 0 { BinaryOp::Mult } else if i == 1 { BinaryOp::Div } else { BinaryOp::Mod }
    } else if k == 8 {
        if i == 0 { BinaryOp::Add } else { BinaryOp::Sub }
    } else if k == 9 {
        if i == 0 { BinaryOp::LShift } else { BinaryOp::RShift }
    } else if k == 10 {
        if i == 0 { BinaryOp::LT } else if i == 1 { BinaryOp::GT } else if i == 2 { BinaryOp::LTE } else { BinaryOp::GTE }
    } else if k == 11 {
        if i == 0 { BinaryOp::Equal } else { BinaryOp::NonEqual }
    } else if k == 12 {
        BinaryOp::BitAnd
    } else if k == 13 {
        BinaryOp::BitXor
    } else if k == 14 {
        BinaryOp::BitOr
    } else if k == 15 {
        BinaryOp::And
    } else if k == 16 {
        BinaryOp::Xor
    } else {
        BinaryOp::Or
    }
}

fn level_op_exec(k: usize, i: usize) -> (r: (&'static str, BinaryOp))
    requires
        7 <= k <= 17,
        i < level_op_count(k as int),
    ensures
        r.0@ == level_op_text(k as int, i as int),
        r.1 == level_op(k as int, i as int),
{
    if k == 7 {
        if i == 0 { ("*", BinaryOp::Mult) } else if i == 1 { ("/", BinaryOp::Div) } else { ("%", BinaryOp::Mod) }
    } else if k == 8 {
        if i == 0 { ("+", BinaryOp::Add) } else { ("-", BinaryOp::Sub) }
    } else if k == 9 {
        if i == 0 { ("<<", BinaryOp::LShift) } else { (">>", BinaryOp::RShift) }
    } else if k == 10 {
        if i == 0 { ("<", BinaryOp::LT) } else if i == 1 { (">", BinaryOp::GT) } else if i == 2 { ("<=", BinaryOp::LTE) } else { (">=", BinaryOp::GTE) }
    } else if k == 11 {
        if i == 0 { ("==", BinaryOp::Equal) } else { ("!=", BinaryOp::NonEqual) }
    } else if k == 12 {
        ("&", BinaryOp::BitAnd)
    } else if k == 13 {
        ("^", BinaryOp::BitXor)
    } else if k == 14 {
        ("|", BinaryOp::BitOr)
    } else if k == 15 {
        ("&&", BinaryOp::And)
    } else if k == 16 {
        ("^^", BinaryOp::Xor)
    } else {
        ("||", BinaryOp::Or)
    }
}

/// Spelling of the prefix operator `i` (`++`, `--`, `+`, `-`, `~`).
pub open spec fn prefix_text(i: int) -> Seq<char> {
    if i == 0 { "++"@ } else if i == 1 { "--"@ } else if i == 2 { "+"@ } else if i == 3 { "-"@ } else { "~"@ }
}

/// The expression built by prefix operator `i`.
pub open spec fn prefix_expr(i: int, e: SExpr) -> SExpr {
    if i == 0 {
        SExpr::PreInc(Box::new(e))
    } else if i == 1 {
        SExpr::PreDec(Box::new(e))
    } else if i == 2 {
        SExpr::Plus(Box::new(e))
    } else if i == 3 {
        SExpr::Minus(Box::new(e))
    } else {
        SExpr::Tilde(Box::new(e))
    }
}

/// Spelling of assignment operator `i`, in the order the grammar tries them.
pub open spec fn assign_text(i: int) -> Seq<char> {
    if i == 0 { "="@ } else if i == 1 { "*="@ } else if i == 2 { "/="@ } else if i == 3 { "%="@ }
    else if i == 4 { "+="@ } else if i == 5 { "-="@ } else if i == 6 { "<<="@ }
    else if i == 7 { ">>="@ } else if i == 8 { "&="@ } else if i == 9 { "^="@ } else { "|="@ }
}

pub open spec fn assign_op_at(i: int) -> AssignOp {
    if i == 0 { AssignOp::Equal } else if i == 1 { AssignOp::MulAssign } else if i == 2 { AssignOp::DivAssign }
    else if i == 3 { AssignOp::ModAssign } else if i == 4 { AssignOp::AddAssign } else if i == 5 { AssignOp::SubAssign }
    else if i == 6 { AssignOp::LeftAssign } else if i == 7 { AssignOp::RightAssign } else if i == 8 { AssignOp::AndAssign }
    else if i == 9 { AssignOp::XorAssign } else { AssignOp::OrAssign }
}

fn assign_exec(i: usize) -> (r: (&'static str, AssignOp))
    requires
        i < 11,
    ensures
        r.0@ == assign_text(i as int),
        r.1 == assign_op_at(i as int),
{
    if i == 0 { ("=", AssignOp::Equal) } else if i == 1 { ("*=", AssignOp::MulAssign) } else if i == 2 { ("/=", AssignOp::DivAssign) }
    else if i == 3 { ("%=", AssignOp::ModAssign) } else if i == 4 { ("+=", AssignOp::AddAssign) } else if i == 5 { ("-=", AssignOp::SubAssign) }
    else if i == 6 { ("<<=", AssignOp::LeftAssign) } else if i == 7 { (">>=", AssignOp::RightAssign) } else if i == 8 { ("&=", AssignOp::AndAssign) }
    else if i == 9 { ("^=", AssignOp::XorAssign) } else { ("|=", AssignOp::OrAssign) }
}

/// The assignment operator at `p` (after whitespace): the first, in the order
/// `=`, `*=`, `/=`, `%=`, `+=`, `-=`, `<<=`, `>>=`, `&=`, `^=`, `|=`, whose spelling occurs there.
pub open spec fn spec_assign_op_from(s: Seq<char>, q: int, i: int) -> Option<(AssignOp, int)>
    decreases 11 - i,
{
    if i < 0 || i >= 11 {
        None
    } else if has_tag(s, q, assign_text(i)) {
        Some((assign_op_at(i), q + assign_text(i).len()))
    } else {
        spec_assign_op_from(s, q, i + 1)
    }
}

pub open spec fn spec_assign_op(s: Seq<char>, p: int) -> Option<(AssignOp, int)> {
    spec_assign_op_from(s, skip_ws(s, p), 0)
}

fn assignment_operator(s: &Vec<char>, p: usize) -> (r: Option<(AssignOp, usize)>)
    requires
        p <= s.len(),
    ensures
        match r {
            Some((op, q)) => spec_assign_op(s@, p as int) == Some((op, q as int)) && p < q <= s.len(),
            None => spec_assign_op(s@, p as int) is None,
        },
{
    let q = skip_ws_at(s, p);
    let mut i: usize = 0;
    while i < 11
        invariant
            i <= 11,
            p <= q <= s.len(),
            q == skip_ws(s@, p as int),
            spec_assign_op(s@, p as int) == spec_assign_op_from(s@, q as int, i as int),
        decreases 11 - i,
    {
        let (t, op) = assign_exec(i);
        let n = t.unicode_len();
        if tag_at(s, q, t) {
            proof {
                reveal_strlit("=");
                reveal_strlit("*=");
                reveal_strlit("/=");
                reveal_strlit("%=");
                reveal_strlit("+=");
                reveal_strlit("-=");
                reveal_strlit("<<=");
                reveal_strlit(">>=");
                reveal_strlit("&=");
                reveal_strlit("^=");
                reveal_strlit("|=");
            }
            let len = s.len();
            assert(q + n <= len);
            return Some((op, q + n));
        }
        i = i + 1;
    }
    None
}


/// The position after the literal `t` when it occurs (and is not empty) at `p`.
pub open spec fn tag_end(s: Seq<char>, p: int, t: Seq<char>) -> Option<int> {
    if t.len() > 0 && has_tag(s, p, t) {
        Some(p + t.len())
    } else {
        None
    }
}

pub fn tag_end_at(s: &Vec<char>, p: usize, t: &str) -> (r: Option<usize>)
    ensures
        match r {
            Some(q) => tag_end(s@, p as int, t@) == Some(q as int) && p < q <= s.len(),
            None => tag_end(s@, p as int, t@) is None,
        },
{
    let n = t.unicode_len();
    if n > 0 && tag_at(s, p, t) {
        let len = s.len();
        assert(p + n <= len);
        Some(p + n)
    } else {
        None
    }
}

// ---------------------------------------------------------------------------
// The grammar
// ---------------------------------------------------------------------------

/// `expression`: assignment expressions separated by `,`. With more than one,
/// the result is a `Comma` whose list holds the expressions after the first,
/// in order, followed by the first.
pub open spec fn spec_expression(s: Seq<char>, p: int) -> Option<(SExpr, int)>
    decreases s.len() - p, 60int, 0int,
{
    if !(0 <= p <= s.len()) {
        None
    } else {
        let p0 = skip_ws(s, p);
        proof {
            lemma_skip_ws_bounds(s, p);
        }
        match spec_assignment(s, p0) {
            Some((h, p1)) => if adv(p0, p1, s.len()) {
                let (tail, q) = spec_expr_tail(s, p1, Seq::empty());
                if tail.len() == 0 {
                    Some((h, q))
                } else {
                    Some((SExpr::Comma(tail.push(h)), q))
                }
            } else {
                None
            },
            None => None,
        }
    }
}

/// The `, assignment` parts after the first operand of an `expression`.
pub open spec fn spec_expr_tail(s: Seq<char>, p: int, acc: Seq<SExpr>) -> (Seq<SExpr>, int)
    decreases s.len() - p, 60int, 0int,
{
    if !(0 <= p <= s.len()) {
        (acc, p)
    } else {
        proof {
            lemma_skip_ws_bounds(s, p);
        }
        match tag_end(s, skip_ws(s, p), ","@) {
            Some(q) => match spec_assignment(s, q) {
                Some((e, r)) => if adv(q, r, s.len()) {
                    spec_expr_tail(s, r, acc.push(e))
                } else {
                    (acc, p)
                },
                None => (acc, p),
            },
            None => (acc, p),
        }
    }
}

/// `assignment_expression`: `unary assignment_operator assignment`, or else a ternary expression.
pub open spec fn spec_assignment(s: Seq<char>, p: int) -> Option<(SExpr, int)>
    decreases s.len() - p, 58int, 0int,
{
    if !(0 <= p <= s.len()) {
        None
    } else {
        let p0 = skip_ws(s, p);
        proof {
            lemma_skip_ws_bounds(s, p);
        }
        let first = match spec_unary(s, p0) {
            Some((e1, p1)) => if adv(p0, p1, s.len()) {
                match spec_assign_op(s, p1) {
                    Some((op, p2)) => if adv(p1, p2, s.len()) {
                        match spec_assignment(s, p2) {
                            Some((e2, p3)) => Some((SExpr::Assign(op, Box::new(e1), Box::new(e2)), p3)),
                            None => None,
                        }
                    } else {
                        None
                    },
                    None => None,
                }
            } else {
                None
            },
            None => None,
        };
        match first {
            Some(x) => Some(x),
            None => spec_ternary(s, p0),
        }
    }
}

/// `ternary_expression`: `logical_or ? expression : assignment`, or else a logical-or expression.
pub open spec fn spec_ternary(s: Seq<char>, p: int) -> Option<(SExpr, int)>
    decreases s.len() - p, 57int, 0int,
{
    if !(0 <= p <= s.len()) {
        None
    } else {
        let p0 = skip_ws(s, p);
        proof {
            lemma_skip_ws_bounds(s, p);
        }
        match spec_binary(s, p0, 17) {
            Some((c, p1)) => if adv(p0, p1, s.len()) {
                proof {
                    lemma_skip_ws_bounds(s, p1);
                }
                let first = match tag_end(s, skip_ws(s, p1), "?"@) {
                    Some(q) => match spec_expression(s, q) {
                        Some((e1, p2)) => if adv(q, p2, s.len()) {
                            proof {
                                lemma_skip_ws_bounds(s, p2);
                            }
                            match tag_end(s, skip_ws(s, p2), ":"@) {
                                Some(t) => match spec_assignment(s, t) {
                                    Some((e2, p3)) => Some(
                                        (
                                            SExpr::Ternary(Box::new(c), Box::new(e1), Box::new(e2)),
                                            p3,
                                        ),
                                    ),
                                    None => None,
                                },
                                None => None,
                            }
                        } else {
                            None
                        },
                        None => None,
                    },
                    None => None,
                };
                match first {
                    Some(x) => Some(x),
                    None => Some((c, p1)),
                }
            } else {
                None
            },
            None => None,
        }
    }
}

/// The binary level `k`: 7 multiplicative, 8 additive, 9 shift, 10 relational,
/// 11 equality, 12 `&`, 13 `^`, 14 `|`, 15 `&&`, 16 `^^`, 17 `||`. Operands are
/// the next level (unary expressions for level 7); operators associate to the left.
pub open spec fn spec_binary(s: Seq<char>, p: int, k: int) -> Option<(SExpr, int)>
    decreases s.len() - p, 20 + k, 9int,
{
    if !(0 <= p <= s.len()) || !(7 <= k <= 17) {
        None
    } else {
        let p0 = skip_ws(s, p);
        proof {
            lemma_skip_ws_bounds(s, p);
        }
        let init = if k == 7 {
            spec_unary(s, p0)
        } else {
            spec_binary(s, p0, k - 1)
        };
        match init {
            Some((e, p1)) => if adv(p0, p1, s.len()) {
                proof {
                    lemma_skip_ws_bounds(s, p1);
                }
                Some(spec_binary_fold(s, skip_ws(s, p1), e, k))
            } else {
                None
            },
            None => None,
        }
    }
}

/// The operators of level `k` and their right operands after the first operand `e`.
pub open spec fn spec_binary_fold(s: Seq<char>, p: int, e: SExpr, k: int) -> (SExpr, int)
    decreases s.len() - p, 20 + k, 9int,
{
    if !(0 <= p <= s.len()) || !(7 <= k <= 17) {
        (e, p)
    } else {
        spec_binary_fold_alt(s, p, e, k, 0)
    }
}

/// Tries the operators of level `k` from index `i` on.
pub open spec fn spec_binary_fold_alt(s: Seq<char>, p: int, e: SExpr, k: int, i: int) -> (SExpr, int)
    decreases s.len() - p, 20 + k, 8 - i,
{
    if !(0 <= p <= s.len()) || !(7 <= k <= 17) || !(0 <= i < level_op_count(k)) {
        (e, p)
    } else {
        match tag_end(s, p, level_op_text(k, i)) {
            Some(q) => {
                let operand = if k == 7 {
                    spec_unary(s, q)
                } else {
                    spec_binary(s, q, k - 1)
                };
                match operand {
                    Some((r, q2)) => if adv(p, q2, s.len()) {
                        spec_binary_fold(s, q2, SExpr::Binary(level_op(k, i), Box::new(e), Box::new(r)), k)
                    } else {
                        spec_binary_fold_alt(s, p, e, k, i + 1)
                    },
                    None => spec_binary_fold_alt(s, p, e, k, i + 1),
                }
            },
            None => spec_binary_fold_alt(s, p, e, k, i + 1),
        }
    }
}

/// `unary_expression`: a postfix expression, or else a prefix operator
/// (`++`, `--`, `+`, `-`, `~`, tried in that order) before a unary expression.
pub open spec fn spec_unary(s: Seq<char>, p: int) -> Option<(SExpr, int)>
    decreases s.len() - p, 10int, 9int,
{
    if !(0 <= p <= s.len()) {
        None
    } else {
        let p0 = skip_ws(s, p);
        proof {
            lemma_skip_ws_bounds(s, p);
        }
        match spec_postfix(s, p0) {
            Some(x) => Some(x),
            None => spec_unary_alt(s, p0, 0),
        }
    }
}

/// Tries the prefix operators from index `i` on.
pub open spec fn spec_unary_alt(s: Seq<char>, p: int, i: int) -> Option<(SExpr, int)>
    decreases s.len() - p, 10int, 8 - i,
{
    if !(0 <= p <= s.len()) || !(0 <= i < 5) {
        None
    } else {
        match tag_end(s, p, prefix_text(i)) {
            Some(q) => match spec_unary(s, q) {
                Some((e, r)) => Some((prefix_expr(i, e), r)),
                None => spec_unary_alt(s, p, i + 1),
            },
            None => spec_unary_alt(s, p, i + 1),
        }
    }
}

/// A parenthesized expression at `p`.
pub open spec fn spec_paren(s: Seq<char>, p: int) -> Option<(SExpr, int)>
    decreases s.len() - p, 9int, 0int,
{
    if !(0 <= p <= s.len()) {
        None
    } else {
        match tag_end(s, p, "("@) {
            Some(q) => match spec_expression(s, q) {
                Some((e, p1)) => if adv(q, p1, s.len()) {
                    proof {
                        lemma_skip_ws_bounds(s, p1);
                    }
                    match tag_end(s, skip_ws(s, p1), ")"@) {
                        Some(r) => Some((e, r)),
                        None => None,
                    }
                } else {
                    None
                },
                None => None,
            },
            None => None,
        }
    }
}

/// The primary part of a postfix expression: a function call, a parenthesized
/// expression, an identifier or a constant, tried in that order.
pub open spec fn spec_primary(s: Seq<char>, p: int) -> Option<(SExpr, int)>
    decreases s.len() - p, 9int, 1int,
{
    if !(0 <= p <= s.len()) {
        None
    } else {
        match spec_function_call(s, p) {
            Some(x) => Some(x),
            None => match spec_paren(s, p) {
                Some(x) => Some(x),
                None => match spec_identifier(s, p) {
                    Some((w, q)) => Some((SExpr::Identifier(w), q)),
                    None => match spec_constant(s, p) {
                        Some((c, q)) => Some((SExpr::Constant(c), q)),
                        None => None,
                    },
                },
            },
        }
    }
}

/// `postfix_expression`: a primary expression followed by any number of
/// `[expression]`, `.field`, `++` and `--`.
pub open spec fn spec_postfix(s: Seq<char>, p: int) -> Option<(SExpr, int)>
    decreases s.len() - p, 9int, 2int,
{
    if !(0 <= p <= s.len()) {
        None
    } else {
        let p0 = skip_ws(s, p);
        proof {
            lemma_skip_ws_bounds(s, p);
        }
        match spec_primary(s, p0) {
            Some((e, p1)) => if adv(p0, p1, s.len()) {
                proof {
                    lemma_skip_ws_bounds(s, p1);
                }
                Some(spec_postfix_fold(s, skip_ws(s, p1), e))
            } else {
                None
            },
            None => None,
        }
    }
}

/// An `[expression]` at `p`, after whitespace.
pub open spec fn spec_array_spec(s: Seq<char>, p: int) -> Option<(SExpr, int)>
    decreases s.len() - p, 9int, 0int,
{
    if !(0 <= p <= s.len()) {
        None
    } else {
        proof {
            lemma_skip_ws_bounds(s, p);
        }
        match tag_end(s, skip_ws(s, p), "["@) {
            Some(q) => match spec_expression(s, q) {
                Some((e, p1)) => if adv(q, p1, s.len()) {
                    proof {
                        lemma_skip_ws_bounds(s, p1);
                    }
                    match tag_end(s, skip_ws(s, p1), "]"@) {
                        Some(r) => Some((e, r)),
                        None => None,
                    }
                } else {
                    None
                },
                None => None,
            },
            None => None,
        }
    }
}

/// A `.field` at `p`, after whitespace.
pub open spec fn spec_dot_field(s: Seq<char>, p: int) -> Option<(Seq<char>, int)> {
    if !(0 <= p <= s.len()) {
        None
    } else {
        match tag_end(s, skip_ws(s, p), "."@) {
            Some(q) => spec_identifier(s, skip_ws(s, q)),
            None => None,
        }
    }
}

/// The postfix operators after the expression `e`.
pub open spec fn spec_postfix_fold(s: Seq<char>, p: int, e: SExpr) -> (SExpr, int)
    decreases s.len() - p, 9int, 1int,
{
    if !(0 <= p <= s.len()) {
        (e, p)
    } else {
        match spec_array_spec(s, p) {
            Some((ix, r)) => if adv(p, r, s.len()) {
                spec_postfix_fold(s, r, SExpr::Bracket(Box::new(e), Box::new(ix)))
            } else {
                (e, p)
            },
            None => match spec_dot_field(s, p) {
                Some((f, r)) => if adv(p, r, s.len()) {
                    spec_postfix_fold(s, r, SExpr::DotField(Box::new(e), f))
                } else {
                    (e, p)
                },
                None => match tag_end(s, p, "++"@) {
                    Some(r) => spec_postfix_fold(s, r, SExpr::PostInc(Box::new(e))),
                    None => match tag_end(s, p, "--"@) {
                        Some(r) => spec_postfix_fold(s, r, SExpr::PostDec(Box::new(e))),
                        None => (e, p),
                    },
                },
            },
        }
    }
}

/// `function_call`: a basic type or identifier followed by `(`, then `void`
/// or a comma-separated list of assignment expressions, then `)`; whitespace
/// may stand before each of these parts.
pub open spec fn spec_function_call(s: Seq<char>, p: int) -> Option<(SExpr, int)>
    decreases s.len() - p, 8int, 0int,
{
    if !(0 <= p <= s.len()) {
        None
    } else {
        let callee = match spec_basic_type(s, p) {
            Some((t, q)) => Some((t, q)),
            None => match spec_identifier(s, p) {
                Some((w, q)) => Some((SBasicType::TypeName(w), q)),
                None => None,
            },
        };
        match callee {
            Some((t, q)) => match tag_end(s, skip_ws(s, q), "("@) {
                Some(r) => if adv(p, r, s.len()) {
                    let args = match tag_end(s, skip_ws(s, r), "void"@) {
                        Some(v) => Some((Seq::<SExpr>::empty(), v)),
                        None => spec_call_args(s, r),
                    };
                    match args {
                        Some((a, t2)) => match tag_end(s, skip_ws(s, t2), ")"@) {
                            Some(u) => Some((SExpr::FunctionCall(t, a), u)),
                            None => None,
                        },
                        None => None,
                    }
                } else {
                    None
                },
                None => None,
            },
            None => None,
        }
    }
}

/// The arguments of a call: none when the first one cannot be read.
pub open spec fn spec_call_args(s: Seq<char>, p: int) -> Option<(Seq<SExpr>, int)>
    decreases s.len() - p, 59int, 1int,
{
    if !(0 <= p <= s.len()) {
        None
    } else {
        match spec_assignment(s, p) {
            None => Some((Seq::empty(), p)),
            Some((e, r)) => if adv(p, r, s.len()) {
                Some(spec_call_args_rest(s, r, seq![e]))
            } else {
                None
            },
        }
    }
}

/// The `, argument` parts of a call after its first argument.
pub open spec fn spec_call_args_rest(s: Seq<char>, p: int, acc: Seq<SExpr>) -> (Seq<SExpr>, int)
    decreases s.len() - p, 59int, 0int,
{
    if !(0 <= p <= s.len()) {
        (acc, p)
    } else {
        proof {
            lemma_skip_ws_bounds(s, p);
        }
        match tag_end(s, skip_ws(s, p), ","@) {
            Some(q) => match spec_assignment(s, q) {
                Some((e, r)) => if adv(q, r, s.len()) {
                    spec_call_args_rest(s, r, acc.push(e))
                } else {
                    (acc, p)
                },
                None => (acc, p),
            },
            None => (acc, p),
        }
    }
}


// ---------------------------------------------------------------------------
// Executable parsers
// ---------------------------------------------------------------------------

fn level_op_count_exec(k: usize) -> (r: usize)
    ensures
        r == level_op_count(k as int),
{
    if k == 7 {
        3
    } else if k == 8 || k == 9 || k == 11 {
        2
    } else if k == 10 {
        4
    } else {
        1
    }
}

fn prefix_exec(i: usize) -> (r: &'static str)
    ensures
        r@ == prefix_text(i as int),
{
    if i == 0 { "++" } else if i == 1 { "--" } else if i == 2 { "+" } else if i == 3 { "-" } else { "~" }
}

fn make_prefix(i: usize, e: Expression) -> (r: Expression)
    ensures
        r@ == prefix_expr(i as int, e@),
{
    if i == 0 {
        Expression::PreInc(Box::new(e))
    } else if i == 1 {
        Expression::PreDec(Box::new(e))
    } else if i == 2 {
        Expression::Plus(Box::new(e))
    } else if i == 3 {
        Expression::Minus(Box::new(e))
    } else {
        Expression::Tilde(Box::new(e))
    }
}

/// Reads an expression (assignment expressions separated by `,`) at `p`.
pub fn expression(s: &Vec<char>, p: usize) -> (r: Option<(Expression, usize)>)
    requires
        p <= s.len(),
    ensures
        parsed(r) == spec_expression(s@, p as int),
        r matches Some((_, q)) ==> q <= s.len(),
    decreases s.len() - p, 60int, 0int,
{
    let p0 = skip_ws_at(s, p);
    match assignment_expression(s, p0) {
        Some((h, p1)) => {
            if p0 < p1 && p1 <= s.len() {
                let (mut tail, q) = expr_tail(s, p1, Vec::new());
                proof {
                    lemma_view_exprs_len(tail@);
                }
                if tail.len() == 0 {
                    Some((h, q))
                } else {
                    proof {
                        lemma_view_exprs_push(tail@, h);
                    }
                    tail.push(h);
                    Some((Expression::Comma(tail), q))
                }
            } else {
                None
            }
        },
        None => None,
    }
}

fn expr_tail(s: &Vec<char>, p: usize, acc: Vec<Expression>) -> (r: (Vec<Expression>, usize))
    requires
        p <= s.len(),
    ensures
        (view_exprs(r.0@), r.1 as int) == spec_expr_tail(s@, p as int, view_exprs(acc@)),
        r.1 <= s.len(),
    decreases s.len() - p, 60int, 0int,
{
    let q0 = skip_ws_at(s, p);
    match tag_end_at(s, q0, ",") {
        Some(q) => match assignment_expression(s, q) {
            Some((e, r)) => {
                if q < r && r <= s.len() {
                    let mut acc = acc;
                    proof {
                        lemma_view_exprs_push(acc@, e);
                    }
                    acc.push(e);
                    expr_tail(s, r, acc)
                } else {
                    (acc, p)
                }
            },
            None => (acc, p),
        },
        None => (acc, p),
    }
}

/// Reads an assignment expression at `p`.
pub fn assignment_expression(s: &Vec<char>, p: usize) -> (r: Option<(Expression, usize)>)
    requires
        p <= s.len(),
    ensures
        parsed(r) == spec_assignment(s@, p as int),
        r matches Some((_, q)) ==> q <= s.len(),
    decreases s.len() - p, 58int, 0int,
{
    let p0 = skip_ws_at(s, p);
    match unary_expression(s, p0) {
        Some((e1, p1)) => {
            if p0 < p1 && p1 <= s.len() {
                match assignment_operator(s, p1) {
                    Some((op, p2)) => match assignment_expression(s, p2) {
                        Some((e2, p3)) => {
                            return Some((Expression::Assign(op, Box::new(e1), Box::new(e2)), p3));
                        },
                        None => {},
                    },
                    None => {},
                }
            }
        },
        None => {},
    }
    ternary_expression(s, p0)
}

/// Reads a ternary (`?:`) expression at `p`.
pub fn ternary_expression(s: &Vec<char>, p: usize) -> (r: Option<(Expression, usize)>)
    requires
        p <= s.len(),
    ensures
        parsed(r) == spec_ternary(s@, p as int),
        r matches Some((_, q)) ==> q <= s.len(),
    decreases s.len() - p, 57int, 0int,
{
    let p0 = skip_ws_at(s, p);
    match binary_expression(s, p0, 17) {
        Some((c, p1)) => {
            if p0 < p1 && p1 <= s.len() {
                let q0 = skip_ws_at(s, p1);
                match tag_end_at(s, q0, "?") {
                    Some(q) => match expression(s, q) {
                        Some((e1, p2)) => {
                            if q < p2 && p2 <= s.len() {
                                let t0 = skip_ws_at(s, p2);
                                match tag_end_at(s, t0, ":") {
                                    Some(t) => match assignment_expression(s, t) {
                                        Some((e2, p3)) => {
                                            return Some(
                                                (
                                                    Expression::Ternary(
                                                        Box::new(c),
                                                        Box::new(e1),
                                                        Box::new(e2),
                                                    ),
                                                    p3,
                                                ),
                                            );
                                        },
                                        None => {},
                                    },
                                    None => {},
                                }
                            }
                        },
                        None => {},
                    },
                    None => {},
                }
                Some((c, p1))
            } else {
                None
            }
        },
        None => None,
    }
}

/// Reads an expression of binary level `k` (see [`spec_binary`]) at `p`.
pub fn binary_expression(s: &Vec<char>, p: usize, k: usize) -> (r: Option<(Expression, usize)>)
    requires
        p <= s.len(),
        7 <= k <= 17,
    ensures
        parsed(r) == spec_binary(s@, p as int, k as int),
        r matches Some((_, q)) ==> q <= s.len(),
    decreases s.len() - p, 20 + k, 9int,
{
    let p0 = skip_ws_at(s, p);
    let init = if k == 7 {
        unary_expression(s, p0)
    } else {
        binary_expression(s, p0, k - 1)
    };
    match init {
        Some((e, p1)) => {
            if p0 < p1 && p1 <= s.len() {
                let q = skip_ws_at(s, p1);
                Some(binary_fold(s, q, e, k))
            } else {
                None
            }
        },
        None => None,
    }
}

fn binary_fold(s: &Vec<char>, p: usize, e: Expression, k: usize) -> (r: (Expression, usize))
    requires
        p <= s.len(),
        7 <= k <= 17,
    ensures
        (r.0@, r.1 as int) == spec_binary_fold(s@, p as int, e@, k as int),
        r.1 <= s.len(),
    decreases s.len() - p, 20 + k, 9int,
{
    let cnt = level_op_count_exec(k);
    let mut i: usize = 0;
    while i < cnt
        invariant
            p <= s.len(),
            7 <= k <= 17,
            cnt == level_op_count(k as int),
            i <= cnt,
            spec_binary_fold(s@, p as int, e@, k as int) == spec_binary_fold_alt(s@, p as int, e@, k as int, i as int),
        decreases cnt - i,
    {
        let (t, op) = level_op_exec(k, i);
        match tag_end_at(s, p, t) {
            Some(q) => {
                let operand = if k == 7 {
                    unary_expression(s, q)
                } else {
                    binary_expression(s, q, k - 1)
                };
                match operand {
                    Some((r, q2)) => {
                        if p < q2 && q2 <= s.len() {
                            return binary_fold(s, q2, Expression::Binary(op, Box::new(e), Box::new(r)), k);
                        }
                    },
                    None => {},
                }
            },
            None => {},
        }
        i = i + 1;
    }
    (e, p)
}

/// Reads a unary expression at `p`.
pub fn unary_expression(s: &Vec<char>, p: usize) -> (r: Option<(Expression, usize)>)
    requires
        p <= s.len(),
    ensures
        parsed(r) == spec_unary(s@, p as int),
        r matches Some((_, q)) ==> q <= s.len(),
    decreases s.len() - p, 10int, 9int,
{
    let p0 = skip_ws_at(s, p);
    match postfix_expression(s, p0) {
        Some(x) => {
            return Some(x);
        },
        None => {},
    }
    let mut i: usize = 0;
    while i < 5
        invariant
            p <= p0 <= s.len(),
            i <= 5,
            spec_unary(s@, p as int) == spec_unary_alt(s@, p0 as int, i as int),
        decreases 5 - i,
    {
        let t = prefix_exec(i);
        match tag_end_at(s, p0, t) {
            Some(q) => match unary_expression(s, q) {
                Some((e, r)) => {
                    return Some((make_prefix(i, e), r));
                },
                None => {},
            },
            None => {},
        }
        i = i + 1;
    }
    None
}

fn paren(s: &Vec<char>, p: usize) -> (r: Option<(Expression, usize)>)
    requires
        p <= s.len(),
    ensures
        parsed(r) == spec_paren(s@, p as int),
        r matches Some((_, q)) ==> q <= s.len(),
    decreases s.len() - p, 9int, 0int,
{
    match tag_end_at(s, p, "(") {
        Some(q) => match expression(s, q) {
            Some((e, p1)) => {
                if q < p1 && p1 <= s.len() {
                    let t = skip_ws_at(s, p1);
                    match tag_end_at(s, t, ")") {
                        Some(r) => Some((e, r)),
                        None => None,
                    }
                } else {
                    None
                }
            },
            None => None,
        },
        None => None,
    }
}

fn primary(s: &Vec<char>, p: usize) -> (r: Option<(Expression, usize)>)
    requires
        p <= s.len(),
    ensures
        parsed(r) == spec_primary(s@, p as int),
        r matches Some((_, q)) ==> q <= s.len(),
    decreases s.len() - p, 9int, 1int,
{
    match function_call(s, p) {
        Some(x) => {
            return Some(x);
        },
        None => {},
    }
    match paren(s, p) {
        Some(x) => {
            return Some(x);
        },
        None => {},
    }
    match identifier(s, p) {
        Some((w, q)) => {
            return Some((Expression::Identifier(w), q));
        },
        None => {},
    }
    match constant(s, p) {
        Some((c, q)) => Some((Expression::Constant(c), q)),
        None => None,
    }
}

/// Reads a postfix expression at `p`.
pub fn postfix_expression(s: &Vec<char>, p: usize) -> (r: Option<(Expression, usize)>)
    requires
        p <= s.len(),
    ensures
        parsed(r) == spec_postfix(s@, p as int),
        r matches Some((_, q)) ==> q <= s.len(),
    decreases s.len() - p, 9int, 2int,
{
    let p0 = skip_ws_at(s, p);
    match primary(s, p0) {
        Some((e, p1)) => {
            if p0 < p1 && p1 <= s.len() {
                let q = skip_ws_at(s, p1);
                Some(postfix_fold(s, q, e))
            } else {
                None
            }
        },
        None => None,
    }
}

/// Reads an array index `[expression]` at `p`, after whitespace.
pub fn array_specifier(s: &Vec<char>, p: usize) -> (r: Option<(Expression, usize)>)
    requires
        p <= s.len(),
    ensures
        parsed(r) == spec_array_spec(s@, p as int),
        r matches Some((_, e)) ==> p < e <= s.len(),
    decreases s.len() - p, 9int, 0int,
{
    let q0 = skip_ws_at(s, p);
    match tag_end_at(s, q0, "[") {
        Some(q) => match expression(s, q) {
            Some((e, p1)) => {
                if q < p1 && p1 <= s.len() {
                    let t = skip_ws_at(s, p1);
                    match tag_end_at(s, t, "]") {
                        Some(r) => Some((e, r)),
                        None => None,
                    }
                } else {
                    None
                }
            },
            None => None,
        },
        None => None,
    }
}

fn dot_field_specifier(s: &Vec<char>, p: usize) -> (r: Option<(Identifier, usize)>)
    requires
        p <= s.len(),
    ensures
        match r {
            Some((f, q)) => spec_dot_field(s@, p as int) == Some((f@, q as int)) && p < q <= s.len(),
            None => spec_dot_field(s@, p as int) is None,
        },
{
    let q0 = skip_ws_at(s, p);
    match tag_end_at(s, q0, ".") {
        Some(q) => {
            let q1 = skip_ws_at(s, q);
            identifier(s, q1)
        },
        None => None,
    }
}

fn postfix_fold(s: &Vec<char>, p: usize, e: Expression) -> (r: (Expression, usize))
    requires
        p <= s.len(),
    ensures
        (r.0@, r.1 as int) == spec_postfix_fold(s@, p as int, e@),
        r.1 <= s.len(),
    decreases s.len() - p, 9int, 1int,
{
    match array_specifier(s, p) {
        Some((ix, r)) => {
            if p < r && r <= s.len() {
                return postfix_fold(s, r, Expression::Bracket(Box::new(e), Box::new(ix)));
            } else {
                return (e, p);
            }
        },
        None => {},
    }
    match dot_field_specifier(s, p) {
        Some((f, r)) => {
            return postfix_fold(s, r, Expression::DotField(Box::new(e), f));
        },
        None => {},
    }
    match tag_end_at(s, p, "++") {
        Some(r) => {
            return postfix_fold(s, r, Expression::PostInc(Box::new(e)));
        },
        None => {},
    }
    match tag_end_at(s, p, "--") {
        Some(r) => postfix_fold(s, r, Expression::PostDec(Box::new(e))),
        None => (e, p),
    }
}

/// Reads a function call (or constructor call) at `p`.
pub fn function_call(s: &Vec<char>, p: usize) -> (r: Option<(Expression, usize)>)
    requires
        p <= s.len(),
    ensures
        parsed(r) == spec_function_call(s@, p as int),
        r matches Some((_, q)) ==> q <= s.len(),
    decreases s.len() - p, 8int, 0int,
{
    let callee: Option<(BasicType, usize)> = match basic_type(s, p) {
        Some((t, q)) => Some((t, q)),
        None => match identifier(s, p) {
            Some((w, q)) => Some((BasicType::TypeName(w), q)),
            None => None,
        },
    };
    match callee {
        Some((t, q)) => match tag_end_at(s, skip_ws_at(s, q), "(") {
            Some(r) => {
                if p < r && r <= s.len() {
                    let args = match tag_end_at(s, skip_ws_at(s, r), "void") {
                        Some(v) => {
                            let a: Vec<Expression> = Vec::new();
                            proof {
                                assert(view_exprs(a@) =~= Seq::<SExpr>::empty());
                            }
                            Some((a, v))
                        },
                        None => call_args(s, r),
                    };
                    let ghost spec_args = match tag_end(s@, skip_ws(s@, r as int), "void"@) {
                        Some(v) => Some((Seq::<SExpr>::empty(), v)),
                        None => spec_call_args(s@, r as int),
                    };
                    assert(match args {
                        Some((a, t2)) => spec_args == Some((view_exprs(a@), t2 as int)),
                        None => spec_args is None,
                    });
                    match args {
                        Some((a, t2)) => match tag_end_at(s, skip_ws_at(s, t2), ")") {
                            Some(u) => Some((Expression::FunctionCall(t, a), u)),
                            None => None,
                        },
                        None => None,
                    }
                } else {
                    None
                }
            },
            None => None,
        },
        None => None,
    }
}

fn call_args(s: &Vec<char>, p: usize) -> (r: Option<(Vec<Expression>, usize)>)
    requires
        p <= s.len(),
    ensures
        match r {
            Some((v, q)) => spec_call_args(s@, p as int) == Some((view_exprs(v@), q as int)) && q <= s.len(),
            None => spec_call_args(s@, p as int) is None,
        },
    decreases s.len() - p, 59int, 1int,
{
    match assignment_expression(s, p) {
        None => Some((Vec::new(), p)),
        Some((e, r)) => {
            if p < r && r <= s.len() {
                let mut v: Vec<Expression> = Vec::new();
                proof {
                    lemma_view_exprs_push(v@, e);
                    assert(Seq::<SExpr>::empty().push(e@) =~= seq![e@]);
                }
                v.push(e);
                let (v2, q) = call_args_rest(s, r, v);
                Some((v2, q))
            } else {
                None
            }
        },
    }
}

fn call_args_rest(s: &Vec<char>, p: usize, acc: Vec<Expression>) -> (r: (Vec<Expression>, usize))
    requires
        p <= s.len(),
    ensures
        (view_exprs(r.0@), r.1 as int) == spec_call_args_rest(s@, p as int, view_exprs(acc@)),
        r.1 <= s.len(),
    decreases s.len() - p, 59int, 0int,
{
    match tag_end_at(s, skip_ws_at(s, p), ",") {
        Some(q) => match assignment_expression(s, q) {
            Some((e, r)) => {
                if q < r && r <= s.len() {
                    let mut acc = acc;
                    proof {
                        lemma_view_exprs_push(acc@, e);
                    }
                    acc.push(e);
                    call_args_rest(s, r, acc)
                } else {
                    (acc, p)
                }
            },
            None => (acc, p),
        },
        None => (acc, p),
    }
}


/// Reads an expression of binary level 7 (see [`spec_binary`]) at `p`.
pub fn mult_expression(s: &Vec<char>, p: usize) -> (r: Option<(Expression, usize)>)
    requires
        p <= s.len(),
    ensures
        parsed(r) == spec_binary(s@, p as int, 7),
{
    binary_expression(s, p, 7)
}

/// Reads an expression of binary level 8 (see [`spec_binary`]) at `p`.
pub fn add_expression(s: &Vec<char>, p: usize) -> (r: Option<(Expression, usize)>)
    requires
        p <= s.len(),
    ensures
        parsed(r) == spec_binary(s@, p as int, 8),
{
    binary_expression(s, p, 8)
}

/// Reads an expression of binary level 9 (see [`spec_binary`]) at `p`.
pub fn shift_expression(s: &Vec<char>, p: usize) -> (r: Option<(Expression, usize)>)
    requires
        p <= s.len(),
    ensures
        parsed(r) == spec_binary(s@, p as int, 9),
{
    binary_expression(s, p, 9)
}

/// Reads an expression of binary level 10 (see [`spec_binary`]) at `p`.
pub fn relational_expression(s: &Vec<char>, p: usize) -> (r: Option<(Expression, usize)>)
    requires
        p <= s.len(),
    ensures
        parsed(r) == spec_binary(s@, p as int, 10),
{
    binary_expression(s, p, 10)
}

/// Reads an expression of binary level 11 (see [`spec_binary`]) at `p`.
pub fn equality_expression(s: &Vec<char>, p: usize) -> (r: Option<(Expression, usize)>)
    requires
        p <= s.len(),
    ensures
        parsed(r) == spec_binary(s@, p as int, 11),
{
    binary_expression(s, p, 11)
}

/// Reads an expression of binary level 12 (see [`spec_binary`]) at `p`.
pub fn bit_and_expression(s: &Vec<char>, p: usize) -> (r: Option<(Expression, usize)>)
    requires
        p <= s.len(),
    ensures
        parsed(r) == spec_binary(s@, p as int, 12),
{
    binary_expression(s, p, 12)
}

/// Reads an expression of binary level 13 (see [`spec_binary`]) at `p`.
pub fn bit_xor_expression(s: &Vec<char>, p: usize) -> (r: Option<(Expression, usize)>)
    requires
        p <= s.len(),
    ensures
        parsed(r) == spec_binary(s@, p as int, 13),
{
    binary_expression(s, p, 13)
}

/// Reads an expression of binary level 14 (see [`spec_binary`]) at `p`.
pub fn bit_or_expression(s: &Vec<char>, p: usize) -> (r: Option<(Expression, usize)>)
    requires
        p <= s.len(),
    ensures
        parsed(r) == spec_binary(s@, p as int, 14),
{
    binary_expression(s, p, 14)
}

/// Reads an expression of binary level 15 (see [`spec_binary`]) at `p`.
pub fn logical_and_expression(s: &Vec<char>, p: usize) -> (r: Option<(Expression, usize)>)
    requires
        p <= s.len(),
    ensures
        parsed(r) == spec_binary(s@, p as int, 15),
{
    binary_expression(s, p, 15)
}

/// Reads an expression of binary level 16 (see [`spec_binary`]) at `p`.
pub fn logical_xor_expression(s: &Vec<char>, p: usize) -> (r: Option<(Expression, usize)>)
    requires
        p <= s.len(),
    ensures
        parsed(r) == spec_binary(s@, p as int, 16),
{
    binary_expression(s, p, 16)
}

/// Reads an expression of binary level 17 (see [`spec_binary`]) at `p`.
pub fn logical_or_expression(s: &Vec<char>, p: usize) -> (r: Option<(Expression, usize)>)
    requires
        p <= s.len(),
    ensures
        parsed(r) == spec_binary(s@, p as int, 17),
{
    binary_expression(s, p, 17)
}

// ---------------------------------------------------------------------------
// Laws of the operator readers
// ---------------------------------------------------------------------------

/// The spelling of an assignment operator.
pub open spec fn assign_op_spelling(op: AssignOp) -> Seq<char> {
    match op {
        AssignOp::Equal => "="@,
        AssignOp::MulAssign => "*="@,
        AssignOp::DivAssign => "/="@,
        AssignOp::ModAssign => "%="@,
        AssignOp::AddAssign => "+="@,
        AssignOp::SubAssign => "-="@,
        AssignOp::LeftAssign => "<<="@,
        AssignOp::RightAssign => ">>="@,
        AssignOp::AndAssign => "&="@,
        AssignOp::XorAssign => "^="@,
        AssignOp::OrAssign => "|="@,
    }
}

/// The spelling of a binary operator.
pub open spec fn binary_op_spelling(op: BinaryOp) -> Seq<char> {
    match op {
        BinaryOp::Or => "||"@,
        BinaryOp::Xor => "^^"@,
        BinaryOp::And => "&&"@,
        BinaryOp::BitOr => "|"@,
        BinaryOp::BitXor => "^"@,
        BinaryOp::BitAnd => "&"@,
        BinaryOp::Equal => "=="@,
        BinaryOp::NonEqual => "!="@,
        BinaryOp::LT => "<"@,
        BinaryOp::GT => ">"@,
        BinaryOp::LTE => "<="@,
        BinaryOp::GTE => ">="@,
        BinaryOp::LShift => "<<"@,
        BinaryOp::RShift => ">>"@,
        BinaryOp::Add => "+"@,
        BinaryOp::Sub => "-"@,
        BinaryOp::Mult => "*"@,
        BinaryOp::Div => "/"@,
        BinaryOp::Mod => "%"@,
    }
}

/// The spelling of the prefix operator that builds `e`, if `e` is built by one.
pub open spec fn prefix_spelling(e: SExpr) -> Option<Seq<char>> {
    match e {
        SExpr::PreInc(_) => Some("++"@),
        SExpr::PreDec(_) => Some("--"@),
        SExpr::Plus(_) => Some("+"@),
        SExpr::Minus(_) => Some("-"@),
        SExpr::Tilde(_) => Some("~"@),
        _ => None,
    }
}

proof fn lemma_assign_op_from(s: Seq<char>, q: int, i: int)
    ensures
        spec_assign_op_from(s, q, i) matches Some((op, e)) ==> has_tag(s, q, assign_op_spelling(op))
            && e == q + assign_op_spelling(op).len(),
    decreases 11 - i,
{
    if 0 <= i < 11 && !has_tag(s, q, assign_text(i)) {
        lemma_assign_op_from(s, q, i + 1);
    }
}

/// The assignment operator read is the one spelled in the text: after
/// whitespace, the text read is exactly the spelling of the operator returned.
pub proof fn law_assign_op_is_its_spelling(s: Seq<char>, p: int)
    ensures
        spec_assign_op(s, p) matches Some((op, e)) ==> has_tag(s, skip_ws(s, p), assign_op_spelling(op))
            && e == skip_ws(s, p) + assign_op_spelling(op).len(),
{
    lemma_assign_op_from(s, skip_ws(s, p), 0);
}

/// Each binary operator is read from its own spelling: the operator that a
/// level of the grammar builds after reading a spelling is the operator with
/// that spelling.
pub proof fn law_binary_op_is_its_spelling(k: int, i: int)
    requires
        7 <= k <= 17,
        0 <= i < level_op_count(k),
    ensures
        level_op_text(k, i) == binary_op_spelling(level_op(k, i)),
{
}

/// Each prefix operator is read from its own spelling: the expression built
/// after reading a prefix spelling is the one that spelling writes.
pub proof fn law_prefix_op_is_its_spelling(i: int, e: SExpr)
    requires
        0 <= i < 5,
    ensures
        prefix_spelling(prefix_expr(i, e)) == Some(prefix_text(i)),
{
}

} // verus!
