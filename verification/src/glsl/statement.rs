//! Statements: declarations, expressions, selections, loops, jumps and
//! scopes.
use vstd::prelude::*;
use crate::text::{skip_ws, skip_ws_at, has_tag};
use crate::glsl::token::{Identifier, spec_identifier, valid_name};
use crate::glsl::expression::{
    Expression, SExpr, view_expr, tag_end, tag_end_at, adv, spec_assignment, spec_expression,
    assignment_expression, expression,
};
use crate::glsl::declaration::{
    Declaration, FullyTypeSpecifier, SDecl, SFullType, kw, spec_declaration, spec_full_type, view_decl,
    view_full, declaration, fully_type_specifier,
};

verus! {

/// The condition of a `while` loop or the test of a `for` loop: an
/// expression, or a variable declared with its initial value.
#[derive(Debug, PartialEq)]
pub enum IterationCondition {
    Expression(Expression),
    InitialVariable(FullyTypeSpecifier, Identifier, Expression),
}

/// The jump statements.
#[derive(Debug, PartialEq)]
pub enum JumpType {
    Continue,
    Break,
    Return,
    ReturnWith(Expression),
    Discard,
}

/// A statement.
#[derive(Debug, PartialEq)]
pub enum Statement {
    Declaration(Declaration),
    Expression(Expression),
    Selection(Expression, Box<Statement>, Option<Box<Statement>>),
    Scoped(Vec<Box<Statement>>),
    While(IterationCondition, Box<Statement>),
    DoWhile(Expression, Box<Statement>),
    /// `for (statement; condition; expression) statement`
    For(Box<Statement>, Option<IterationCondition>, Option<Expression>, Box<Statement>),
    JumpStatment(JumpType),
}

pub ghost enum SCond {
    Expression(SExpr),
    InitialVariable(SFullType, Seq<char>, SExpr),
}

pub ghost enum SJump {
    Continue,
    Break,
    Return,
    ReturnWith(SExpr),
    Discard,
}

pub ghost enum SStmt {
    Declaration(SDecl),
    Expression(SExpr),
    Selection(SExpr, Box<SStmt>, Option<Box<SStmt>>),
    Scoped(Seq<SStmt>),
    While(SCond, Box<SStmt>),
    DoWhile(SExpr, Box<SStmt>),
    For(Box<SStmt>, Option<SCond>, Option<SExpr>, Box<SStmt>),
    JumpStatment(SJump),
}

pub open spec fn view_cond(c: IterationCondition) -> SCond {
    match c {
        IterationCondition::Expression(e) => SCond::Expression(view_expr(e)),
        IterationCondition::InitialVariable(t, n, e) => SCond::InitialVariable(view_full(t), n@, view_expr(e)),
    }
}

pub open spec fn view_opt_cond(c: Option<IterationCondition>) -> Option<SCond> {
    match c {
        Some(x) => Some(view_cond(x)),
        None => None,
    }
}

pub open spec fn view_jump(j: JumpType) -> SJump {
    match j {
        JumpType::Continue => SJump::Continue,
        JumpType::Break => SJump::Break,
        JumpType::Return => SJump::Return,
        JumpType::ReturnWith(e) => SJump::ReturnWith(view_expr(e)),
        JumpType::Discard => SJump::Discard,
    }
}

pub open spec fn view_stmt(st: Statement) -> SStmt
    decreases st,
{
    match st {
        Statement::Declaration(d) => SStmt::Declaration(view_decl(d)),
        Statement::Expression(e) => SStmt::Expression(view_expr(e)),
        Statement::Selection(e, a, b) => SStmt::Selection(
            view_expr(e),
            Box::new(view_stmt(*a)),
            match b {
                Some(x) => Some(Box::new(view_stmt(*x))),
                None => None,
            },
        ),
        Statement::Scoped(v) => SStmt::Scoped(view_stmts(v@)),
        Statement::While(c, a) => SStmt::While(view_cond(c), Box::new(view_stmt(*a))),
        Statement::DoWhile(e, a) => SStmt::DoWhile(view_expr(e), Box::new(view_stmt(*a))),
        Statement::For(i, c, e, a) => SStmt::For(
            Box::new(view_stmt(*i)),
            view_opt_cond(c),
            match e {
                Some(x) => Some(view_expr(x)),
                None => None,
            },
            Box::new(view_stmt(*a)),
        ),
        Statement::JumpStatment(j) => SStmt::JumpStatment(view_jump(j)),
    }
}

pub open spec fn view_stmts(v: Seq<Box<Statement>>) -> Seq<SStmt>
    decreases v,
{
    if v.len() == 0 {
        Seq::empty()
    } else {
        view_stmts(v.drop_last()).push(view_stmt(*v.last()))
    }
}

impl View for Statement {
    type V = SStmt;

    open spec fn view(&self) -> SStmt {
        view_stmt(*self)
    }
}

pub proof fn lemma_view_stmts_push(v: Seq<Box<Statement>>, st: Box<Statement>)
    ensures
        view_stmts(v.push(st)) == view_stmts(v).push(view_stmt(*st)),
{
    assert(v.push(st).drop_last() =~= v);
}

// ---------------------------------------------------------------------------
// The grammar
// ---------------------------------------------------------------------------

/// `expression_statement`: `;` alone (the empty expression), or an
/// expression and `;`.
pub open spec fn spec_expression_statement(s: Seq<char>, p: int) -> Option<(SStmt, int)> {
    match kw(s, p, ";"@) {
        Some(a) => Some((SStmt::Expression(SExpr::Empty), a)),
        None => match spec_expression(s, skip_ws(s, p)) {
            Some((e, a)) => match kw(s, a, ";"@) {
                Some(b) => Some((SStmt::Expression(e), b)),
                None => None,
            },
            None => None,
        },
    }
}

/// `declaration_statement`: a declaration.
pub open spec fn spec_declaration_statement(s: Seq<char>, p: int) -> Option<(SStmt, int)> {
    match spec_declaration(s, p) {
        Some((d, a)) => Some((SStmt::Declaration(d), a)),
        None => None,
    }
}

/// `iteration_condition`: a full type, a name, `=` and an initializer; or an
/// expression.
pub open spec fn spec_iteration_condition(s: Seq<char>, p: int) -> Option<(SCond, int)> {
    let first = match spec_full_type(s, p) {
        Some((ft, a)) => match spec_identifier(s, skip_ws(s, a)) {
            Some((n, b)) => match kw(s, b, "="@) {
                Some(c) => match spec_assignment(s, c) {
                    Some((e, d)) => Some((SCond::InitialVariable(ft, n, e), d)),
                    None => None,
                },
                None => None,
            },
            None => None,
        },
        None => None,
    };
    match first {
        Some(x) => Some(x),
        None => match spec_expression(s, skip_ws(s, p)) {
            Some((e, a)) => Some((SCond::Expression(e), a)),
            None => None,
        },
    }
}

/// `jump_statement`: `return` and an expression, `continue`, `break`,
/// `discard` or `return` (tried in this order), then `;`.
pub open spec fn spec_jump_statement(s: Seq<char>, p: int) -> Option<(SStmt, int)> {
    let jp = match (match kw(s, p, "return"@) {
        Some(a) => spec_expression(s, skip_ws(s, a)),
        None => None,
    }) {
        Some((e, a)) => Some((SJump::ReturnWith(e), a)),
        None => match kw(s, p, "continue"@) {
            Some(a) => Some((SJump::Continue, a)),
            None => match kw(s, p, "break"@) {
                Some(a) => Some((SJump::Break, a)),
                None => match kw(s, p, "discard"@) {
                    Some(a) => Some((SJump::Discard, a)),
                    None => match kw(s, p, "return"@) {
                        Some(a) => Some((SJump::Return, a)),
                        None => None,
                    },
                },
            },
        },
    };
    match jp {
        Some((j, a)) => match kw(s, a, ";"@) {
            Some(b) => Some((SStmt::JumpStatment(j), b)),
            None => None,
        },
        None => None,
    }
}

/// `statement`: a simple statement, or statements between `{` and `}`.
pub open spec fn spec_statement(s: Seq<char>, p: int) -> Option<(SStmt, int)>
    decreases s.len() - p, 3int,
{
    if !(0 <= p <= s.len()) {
        None
    } else {
        match spec_simple_statement(s, p) {
            Some(x) => Some(x),
            None => match kw(s, p, "{"@) {
                Some(a) => if adv(p, a, s.len()) {
                    let (v, b) = spec_statements(s, a, Seq::empty());
                    match kw(s, b, "}"@) {
                        Some(c) => Some((SStmt::Scoped(v), c)),
                        None => None,
                    }
                } else {
                    None
                },
                None => None,
            },
        }
    }
}

/// Statements one after another from `p`, after the statements `acc`.
pub open spec fn spec_statements(s: Seq<char>, p: int, acc: Seq<SStmt>) -> (Seq<SStmt>, int)
    decreases s.len() - p, 4int,
{
    if !(0 <= p <= s.len()) {
        (acc, p)
    } else {
        match spec_statement(s, p) {
            Some((st, a)) => if adv(p, a, s.len()) {
                spec_statements(s, a, acc.push(st))
            } else {
                (acc, p)
            },
            None => (acc, p),
        }
    }
}

/// `simple_statement`: a declaration, expression, selection, iteration or
/// jump statement, the first of these that can be read.
pub open spec fn spec_simple_statement(s: Seq<char>, p: int) -> Option<(SStmt, int)>
    decreases s.len() - p, 2int,
{
    if !(0 <= p <= s.len()) {
        None
    } else {
        match spec_declaration_statement(s, p) {
            Some(x) => Some(x),
            None => match spec_expression_statement(s, p) {
                Some(x) => Some(x),
                None => match spec_selection(s, p) {
                    Some(x) => Some(x),
                    None => match spec_iteration(s, p) {
                        Some(x) => Some(x),
                        None => spec_jump_statement(s, p),
                    },
                },
            },
        }
    }
}

/// `selection_statement`: `if`, `(`, an expression, `)`, a statement, and
/// optionally `else` and a statement.
pub open spec fn spec_selection(s: Seq<char>, p: int) -> Option<(SStmt, int)>
    decreases s.len() - p, 0int,
{
    if !(0 <= p <= s.len()) {
        None
    } else {
        match kw(s, p, "if"@) {
            Some(a) => match kw(s, a, "("@) {
                Some(b) => match spec_expression(s, skip_ws(s, b)) {
                    Some((e, c)) => match kw(s, c, ")"@) {
                        Some(d) => if adv(p, d, s.len()) {
                            match spec_statement(s, d) {
                                Some((first, f)) => {
                                    let second = match kw(s, f, "else"@) {
                                        Some(g) => if adv(p, g, s.len()) {
                                            spec_statement(s, g)
                                        } else {
                                            None
                                        },
                                        None => None,
                                    };
                                    match second {
                                        Some((st, h)) => Some(
                                            (SStmt::Selection(e, Box::new(first), Some(Box::new(st))), h),
                                        ),
                                        None => Some((SStmt::Selection(e, Box::new(first), None), f)),
                                    }
                                },
                                None => None,
                            }
                        } else {
                            None
                        },
                        None => None,
                    },
                    None => None,
                },
                None => None,
            },
            None => None,
        }
    }
}

/// `iteration_statement`: a `while`, `do`-`while` or `for` statement.
pub open spec fn spec_iteration(s: Seq<char>, p: int) -> Option<(SStmt, int)>
    decreases s.len() - p, 1int,
{
    if !(0 <= p <= s.len()) {
        None
    } else {
        match spec_while(s, p) {
            Some(x) => Some(x),
            None => match spec_do_while(s, p) {
                Some(x) => Some(x),
                None => spec_for(s, p),
            },
        }
    }
}

/// `while`, `(`, a condition, `)`, a statement.
pub open spec fn spec_while(s: Seq<char>, p: int) -> Option<(SStmt, int)>
    decreases s.len() - p, 0int,
{
    if !(0 <= p <= s.len()) {
        None
    } else {
        match kw(s, p, "while"@) {
            Some(a) => match kw(s, a, "("@) {
                Some(b) => match spec_iteration_condition(s, b) {
                    Some((c, d)) => match kw(s, d, ")"@) {
                        Some(e) => if adv(p, e, s.len()) {
                            match spec_statement(s, e) {
                                Some((st, f)) => Some((SStmt::While(c, Box::new(st)), f)),
                                None => None,
                            }
                        } else {
                            None
                        },
                        None => None,
                    },
                    None => None,
                },
                None => None,
            },
            None => None,
        }
    }
}

/// `do`, a statement, `while`, `(`, an expression, `)`, `;`.
pub open spec fn spec_do_while(s: Seq<char>, p: int) -> Option<(SStmt, int)>
    decreases s.len() - p, 0int,
{
    if !(0 <= p <= s.len()) {
        None
    } else {
        match kw(s, p, "do"@) {
            Some(a) => if adv(p, a, s.len()) {
                match spec_statement(s, a) {
                    Some((st, b)) => match kw(s, b, "while"@) {
                        Some(c) => match kw(s, c, "("@) {
                            Some(d) => match spec_expression(s, skip_ws(s, d)) {
                                Some((e, f)) => match kw(s, f, ")"@) {
                                    Some(g) => match kw(s, g, ";"@) {
                                        Some(h) => Some((SStmt::DoWhile(e, Box::new(st)), h)),
                                        None => None,
                                    },
                                    None => None,
                                },
                                None => None,
                            },
                            None => None,
                        },
                        None => None,
                    },
                    None => None,
                }
            } else {
                None
            },
            None => None,
        }
    }
}

/// `for`, `(`, an expression or declaration statement, an optional
/// condition, `;`, an optional expression, `)`, a statement.
pub open spec fn spec_for(s: Seq<char>, p: int) -> Option<(SStmt, int)>
    decreases s.len() - p, 0int,
{
    if !(0 <= p <= s.len()) {
        None
    } else {
        match kw(s, p, "for"@) {
            Some(a) => match kw(s, a, "("@) {
                Some(b) => match (match spec_expression_statement(s, b) {
                    Some(x) => Some(x),
                    None => spec_declaration_statement(s, b),
                }) {
                    Some((init, c)) => {
                        let (cond, d) = match spec_iteration_condition(s, c) {
                            Some((x, e)) => (Some(x), e),
                            None => (None, c),
                        };
                        match kw(s, d, ";"@) {
                            Some(e) => {
                                let (inc, f) = match spec_expression(s, skip_ws(s, e)) {
                                    Some((x, g)) => (Some(x), g),
                                    None => (None, e),
                                };
                                match kw(s, f, ")"@) {
                                    Some(g) => if adv(p, g, s.len()) {
                                        match spec_statement(s, g) {
                                            Some((st, h)) => Some(
                                                (SStmt::For(Box::new(init), cond, inc, Box::new(st)), h),
                                            ),
                                            None => None,
                                        }
                                    } else {
                                        None
                                    },
                                    None => None,
                                }
                            },
                            None => None,
                        }
                    },
                    None => None,
                },
                None => None,
            },
            None => None,
        }
    }
}

// ---------------------------------------------------------------------------
// Executable parsers
// ---------------------------------------------------------------------------

pub open spec fn parsed_stmt(r: Option<(Statement, usize)>) -> Option<(SStmt, int)> {
    match r {
        Some((st, e)) => Some((st@, e as int)),
        None => None,
    }
}

fn kw_at(s: &Vec<char>, p: usize, t: &str) -> (r: Option<usize>)
    requires
        p <= s.len(),
    ensures
        match r {
            Some(q) => kw(s@, p as int, t@) == Some(q as int) && p < q <= s.len(),
            None => kw(s@, p as int, t@) is None,
        },
{
    let q = skip_ws_at(s, p);
    tag_end_at(s, q, t)
}

fn expression_at(s: &Vec<char>, p: usize) -> (r: Option<(Expression, usize)>)
    requires
        p <= s.len(),
    ensures
        match r {
            Some((e, q)) => spec_expression(s@, skip_ws(s@, p as int)) == Some((view_expr(e), q as int)) && q <= s.len(),
            None => spec_expression(s@, skip_ws(s@, p as int)) is None,
        },
{
    let q = skip_ws_at(s, p);
    expression(s, q)
}

/// Reads an expression statement at `p` (see [`spec_expression_statement`]).
pub fn expression_statement(s: &Vec<char>, p: usize) -> (r: Option<(Statement, usize)>)
    requires
        p <= s.len(),
    ensures
        parsed_stmt(r) == spec_expression_statement(s@, p as int),
        r matches Some((_, e)) ==> e <= s.len(),
{
    if let Some(a) = kw_at(s, p, ";") {
        return Some((Statement::Expression(Expression::Empty), a));
    }
    match expression_at(s, p) {
        Some((e, a)) => match kw_at(s, a, ";") {
            Some(b) => Some((Statement::Expression(e), b)),
            None => None,
        },
        None => None,
    }
}

/// Reads a declaration statement at `p`.
pub fn declaration_statement(s: &Vec<char>, p: usize) -> (r: Option<(Statement, usize)>)
    requires
        p <= s.len(),
    ensures
        parsed_stmt(r) == spec_declaration_statement(s@, p as int),
        r matches Some((_, e)) ==> e <= s.len(),
{
    match declaration(s, p) {
        Some((d, a)) => Some((Statement::Declaration(d), a)),
        None => None,
    }
}

pub open spec fn parsed_cond(r: Option<(IterationCondition, usize)>) -> Option<(SCond, int)> {
    match r {
        Some((c, e)) => Some((view_cond(c), e as int)),
        None => None,
    }
}

fn iteration_condition(s: &Vec<char>, p: usize) -> (r: Option<(IterationCondition, usize)>)
    requires
        p <= s.len(),
    ensures
        parsed_cond(r) == spec_iteration_condition(s@, p as int),
        r matches Some((_, e)) ==> e <= s.len(),
{
    if let Some((ft, a)) = fully_type_specifier(s, p) {
        if let Some((n, b)) = valid_name(s, skip_ws_at(s, a)) {
            if let Some(c) = kw_at(s, b, "=") {
                if let Some((e, d)) = assignment_expression(s, c) {
                    return Some((IterationCondition::InitialVariable(ft, n, e), d));
                }
            }
        }
    }
    match expression_at(s, p) {
        Some((e, a)) => Some((IterationCondition::Expression(e), a)),
        None => None,
    }
}

/// Reads a jump statement at `p` (see [`spec_jump_statement`]).
pub fn jump_statement(s: &Vec<char>, p: usize) -> (r: Option<(Statement, usize)>)
    requires
        p <= s.len(),
    ensures
        parsed_stmt(r) == spec_jump_statement(s@, p as int),
        r matches Some((_, e)) ==> e <= s.len(),
{
    let ret_with: Option<(Expression, usize)> = match kw_at(s, p, "return") {
        Some(a) => expression_at(s, a),
        None => None,
    };
    let jp: Option<(JumpType, usize)> = match ret_with {
        Some((e, a)) => Some((JumpType::ReturnWith(e), a)),
        None => match kw_at(s, p, "continue") {
            Some(a) => Some((JumpType::Continue, a)),
            None => match kw_at(s, p, "break") {
                Some(a) => Some((JumpType::Break, a)),
                None => match kw_at(s, p, "discard") {
                    Some(a) => Some((JumpType::Discard, a)),
                    None => match kw_at(s, p, "return") {
                        Some(a) => Some((JumpType::Return, a)),
                        None => None,
                    },
                },
            },
        },
    };
    match jp {
        Some((j, a)) => match kw_at(s, a, ";") {
            Some(b) => Some((Statement::JumpStatment(j), b)),
            None => None,
        },
        None => None,
    }
}

/// Reads a statement at `p` (see [`spec_statement`]).
pub fn statement(s: &Vec<char>, p: usize) -> (r: Option<(Box<Statement>, usize)>)
    requires
        p <= s.len(),
    ensures
        match r {
            Some((st, e)) => spec_statement(s@, p as int) == Some((view_stmt(*st), e as int)) && e <= s.len(),
            None => spec_statement(s@, p as int) is None,
        },
    decreases s.len() - p, 3int,
{
    if let Some((st, e)) = simple_statement(s, p) {
        return Some((Box::new(st), e));
    }
    let a = match kw_at(s, p, "{") {
        Some(a) => a,
        None => {
            return None;
        },
    };
    let (v, b) = statements(s, a);
    match kw_at(s, b, "}") {
        Some(c) => Some((Box::new(Statement::Scoped(v)), c)),
        None => None,
    }
}

fn statements(s: &Vec<char>, p: usize) -> (r: (Vec<Box<Statement>>, usize))
    requires
        p <= s.len(),
    ensures
        (view_stmts(r.0@), r.1 as int) == spec_statements(s@, p as int, Seq::empty()),
        p <= r.1 <= s.len(),
    decreases s.len() - p, 4int,
{
    let mut acc: Vec<Box<Statement>> = Vec::new();
    let mut q = p;
    assert(view_stmts(acc@) =~= Seq::<SStmt>::empty());
    loop
        invariant
            p <= q <= s.len(),
            spec_statements(s@, p as int, Seq::empty()) == spec_statements(s@, q as int, view_stmts(acc@)),
        decreases s.len() - q,
    {
        match statement(s, q) {
            Some((st, a)) => {
                if q < a && a <= s.len() {
                    proof {
                        lemma_view_stmts_push(acc@, st);
                    }
                    acc.push(st);
                    q = a;
                } else {
                    return (acc, q);
                }
            },
            None => {
                return (acc, q);
            },
        }
    }
}

/// Reads a simple statement at `p` (see [`spec_simple_statement`]).
pub fn simple_statement(s: &Vec<char>, p: usize) -> (r: Option<(Statement, usize)>)
    requires
        p <= s.len(),
    ensures
        parsed_stmt(r) == spec_simple_statement(s@, p as int),
        r matches Some((_, e)) ==> e <= s.len(),
    decreases s.len() - p, 2int,
{
    if let Some(x) = declaration_statement(s, p) {
        return Some(x);
    }
    if let Some(x) = expression_statement(s, p) {
        return Some(x);
    }
    if let Some(x) = selection_statement(s, p) {
        return Some(x);
    }
    if let Some(x) = iteration_statement(s, p) {
        return Some(x);
    }
    jump_statement(s, p)
}

/// Reads an `if` statement at `p` (see [`spec_selection`]).
pub fn selection_statement(s: &Vec<char>, p: usize) -> (r: Option<(Statement, usize)>)
    requires
        p <= s.len(),
    ensures
        parsed_stmt(r) == spec_selection(s@, p as int),
        r matches Some((_, e)) ==> e <= s.len(),
    decreases s.len() - p, 0int,
{
    let a = match kw_at(s, p, "if") {
        Some(a) => a,
        None => {
            return None;
        },
    };
    let b = match kw_at(s, a, "(") {
        Some(b) => b,
        None => {
            return None;
        },
    };
    let (e, c) = match expression_at(s, b) {
        Some(x) => x,
        None => {
            return None;
        },
    };
    let d = match kw_at(s, c, ")") {
        Some(d) => d,
        None => {
            return None;
        },
    };
    if !(p < d) {
        return None;
    }
    let (first, f) = match statement(s, d) {
        Some(x) => x,
        None => {
            return None;
        },
    };
    let second = match kw_at(s, f, "else") {
        Some(g) => if p < g {
            statement(s, g)
        } else {
            None
        },
        None => None,
    };
    match second {
        Some((st, h)) => Some((Statement::Selection(e, first, Some(st)), h)),
        None => Some((Statement::Selection(e, first, None), f)),
    }
}

/// Reads a `while`, `do`-`while` or `for` statement at `p` (see
/// [`spec_iteration`]).
pub fn iteration_statement(s: &Vec<char>, p: usize) -> (r: Option<(Statement, usize)>)
    requires
        p <= s.len(),
    ensures
        parsed_stmt(r) == spec_iteration(s@, p as int),
        r matches Some((_, e)) ==> e <= s.len(),
    decreases s.len() - p, 1int,
{
    if let Some(x) = while_statement(s, p) {
        return Some(x);
    }
    if let Some(x) = do_while_statement(s, p) {
        return Some(x);
    }
    for_statement(s, p)
}

fn while_statement(s: &Vec<char>, p: usize) -> (r: Option<(Statement, usize)>)
    requires
        p <= s.len(),
    ensures
        parsed_stmt(r) == spec_while(s@, p as int),
        r matches Some((_, e)) ==> e <= s.len(),
    decreases s.len() - p, 0int,
{
    let a = match kw_at(s, p, "while") {
        Some(a) => a,
        None => {
            return None;
        },
    };
    let b = match kw_at(s, a, "(") {
        Some(b) => b,
        None => {
            return None;
        },
    };
    let (c, d) = match iteration_condition(s, b) {
        Some(x) => x,
        None => {
            return None;
        },
    };
    let e = match kw_at(s, d, ")") {
        Some(e) => e,
        None => {
            return None;
        },
    };
    if !(p < e) {
        return None;
    }
    match statement(s, e) {
        Some((st, f)) => Some((Statement::While(c, st), f)),
        None => None,
    }
}

fn do_while_statement(s: &Vec<char>, p: usize) -> (r: Option<(Statement, usize)>)
    requires
        p <= s.len(),
    ensures
        parsed_stmt(r) == spec_do_while(s@, p as int),
        r matches Some((_, e)) ==> e <= s.len(),
    decreases s.len() - p, 0int,
{
    let a = match kw_at(s, p, "do") {
        Some(a) => a,
        None => {
            return None;
        },
    };
    let (st, b) = match statement(s, a) {
        Some(x) => x,
        None => {
            return None;
        },
    };
    let c = match kw_at(s, b, "while") {
        Some(c) => c,
        None => {
            return None;
        },
    };
    let d = match kw_at(s, c, "(") {
        Some(d) => d,
        None => {
            return None;
        },
    };
    let (e, f) = match expression_at(s, d) {
        Some(x) => x,
        None => {
            return None;
        },
    };
    let g = match kw_at(s, f, ")") {
        Some(g) => g,
        None => {
            return None;
        },
    };
    match kw_at(s, g, ";") {
        Some(h) => Some((Statement::DoWhile(e, st), h)),
        None => None,
    }
}

fn for_statement(s: &Vec<char>, p: usize) -> (r: Option<(Statement, usize)>)
    requires
        p <= s.len(),
    ensures
        parsed_stmt(r) == spec_for(s@, p as int),
        r matches Some((_, e)) ==> e <= s.len(),
    decreases s.len() - p, 0int,
{
    let a = match kw_at(s, p, "for") {
        Some(a) => a,
        None => {
            return None;
        },
    };
    let b = match kw_at(s, a, "(") {
        Some(b) => b,
        None => {
            return None;
        },
    };
    let init = match expression_statement(s, b) {
        Some(x) => Some(x),
        None => declaration_statement(s, b),
    };
    let (init, c) = match init {
        Some(x) => x,
        None => {
            return None;
        },
    };
    let (cond, d) = match iteration_condition(s, c) {
        Some((x, e)) => (Some(x), e),
        None => (None, c),
    };
    let e = match kw_at(s, d, ";") {
        Some(e) => e,
        None => {
            return None;
        },
    };
    let (inc, f) = match expression_at(s, e) {
        Some((x, g)) => (Some(x), g),
        None => (None, e),
    };
    let g = match kw_at(s, f, ")") {
        Some(g) => g,
        None => {
            return None;
        },
    };
    if !(p < g) {
        return None;
    }
    match statement(s, g) {
        Some((st, h)) => Some((Statement::For(Box::new(init), cond, inc, st), h)),
        None => None,
    }
}

/// The keyword that writes a jump.
pub open spec fn jump_keyword(j: SJump) -> Seq<char> {
    match j {
        SJump::Continue => "continue"@,
        SJump::Break => "break"@,
        SJump::Return => "return"@,
        SJump::ReturnWith(_) => "return"@,
        SJump::Discard => "discard"@,
    }
}

/// A jump statement is read as the jump its keyword names: after
/// whitespace, the text read starts with that jump's keyword.
pub proof fn law_jump_is_its_keyword(s: Seq<char>, p: int)
    ensures
        spec_jump_statement(s, p) matches Some((st, _)) ==> st matches SStmt::JumpStatment(j)
            && has_tag(s, skip_ws(s, p), jump_keyword(j)),
{
}

/// A loop is read as the loop its keyword names: a `while` loop starts with
/// `while`, a `do`-`while` loop with `do`, and a `for` loop with `for`.
pub proof fn law_loop_is_its_keyword(s: Seq<char>, p: int)
    ensures
        spec_iteration(s, p) matches Some((st, _)) ==> match st {
            SStmt::While(_, _) => has_tag(s, skip_ws(s, p), "while"@),
            SStmt::DoWhile(_, _) => has_tag(s, skip_ws(s, p), "do"@),
            SStmt::For(_, _, _, _) => has_tag(s, skip_ws(s, p), "for"@),
            _ => false,
        },
{
}

} // verus!
