//! The operators and punctuation of GLSL, and the lexer rule that reads one.
use vstd::prelude::*;
use crate::text::{has_tag, tag_at};

verus! {

/// An operator or punctuation token of GLSL.
#[derive(Debug, Clone, Copy, PartialEq, Eq, Structural)]
pub enum Operator {
    LeftOp,
    RightOp,
    IncOp,
    DecOp,
    LeOp,
    GeOp,
    EqOp,
    NeOp,
    AndOp,
    OrOp,
    XorOp,
    MulAssign,
    DivAssign,
    AddAssign,
    ModAssign,
    LeftAssign,
    RightAssign,
    AndAssign,
    XorAssign,
    OrAssign,
    SubAssign,
    LeftParen,
    RightParen,
    LeftBracket,
    RightBracket,
    LeftBrace,
    RightBrace,
    Dot,
    Comma,
    Colon,
    Equal,
    SemiColon,
    Bang,
    Dash,
    Tilde,
    Plus,
    Star,
    Slash,
    Percent,
    LeftAngle,
    RightAngle,
    VerticalBar,
    Caret,
    Ampersand,
    Question,
}

/// Number of operators the lexer tries.
pub const OPERATOR_COUNT: usize = 45;

/// The spelling of an operator.
pub open spec fn op_text(op: Operator) -> Seq<char> {
    match op {
        Operator::LeftOp => "<<"@,
        Operator::RightOp => ">>"@,
        Operator::IncOp => "++"@,
        Operator::DecOp => "--"@,
        Operator::LeOp => "<="@,
        Operator::GeOp => ">="@,
        Operator::EqOp => "=="@,
        Operator::NeOp => "!="@,
        Operator::AndOp => "&&"@,
        Operator::OrOp => "||"@,
        Operator::XorOp => "^^"@,
        Operator::MulAssign => "*="@,
        Operator::DivAssign => "/="@,
        Operator::AddAssign => "+="@,
        Operator::ModAssign => "%="@,
        Operator::LeftAssign => "<<="@,
        Operator::RightAssign => ">>="@,
        Operator::AndAssign => "&="@,
        Operator::XorAssign => "^="@,
        Operator::OrAssign => "|="@,
        Operator::SubAssign => "-="@,
        Operator::LeftParen => "("@,
        Operator::RightParen => ")"@,
        Operator::LeftBracket => "["@,
        Operator::RightBracket => "]"@,
        Operator::LeftBrace => "{"@,
        Operator::RightBrace => "}"@,
        Operator::Dot => "."@,
        Operator::Comma => ","@,
        Operator::Colon => ":"@,
        Operator::Equal => "="@,
        Operator::SemiColon => ";"@,
        Operator::Bang => "!"@,
        Operator::Dash => "-"@,
        Operator::Tilde => "~"@,
        Operator::Plus => "+"@,
        Operator::Star => "*"@,
        Operator::Slash => "/"@,
        Operator::Percent => "%"@,
        Operator::LeftAngle => "<"@,
        Operator::RightAngle => ">"@,
        Operator::VerticalBar => "|"@,
        Operator::Caret => "^"@,
        Operator::Ampersand => "&"@,
        Operator::Question => "?"@,
    }
}

/// The operators in the order in which the lexer tries them.
pub open spec fn op_at(i: int) -> Operator {
    if i == 0 {
        Operator::LeftOp
    } else if i == 1 {
        Operator::RightOp
    } else if i == 2 {
        Operator::IncOp
    } else if i == 3 {
        Operator::DecOp
    } else if i == 4 {
        Operator::LeOp
    } else if i == 5 {
        Operator::GeOp
    } else if i == 6 {
        Operator::EqOp
    } else if i == 7 {
        Operator::NeOp
    } else if i == 8 {
        Operator::AndOp
    } else if i == 9 {
        Operator::OrOp
    } else if i == 10 {
        Operator::XorOp
    } else if i == 11 {
        Operator::MulAssign
    } else if i == 12 {
        Operator::DivAssign
    } else if i == 13 {
        Operator::AddAssign
    } else if i == 14 {
        Operator::ModAssign
    } else if i == 15 {
        Operator::LeftAssign
    } else if i == 16 {
        Operator::RightAssign
    } else if i == 17 {
        Operator::AndAssign
    } else if i == 18 {
        Operator::XorAssign
    } else if i == 19 {
        Operator::OrAssign
    } else if i == 20 {
        Operator::SubAssign
    } else if i == 21 {
        Operator::LeftParen
    } else if i == 22 {
        Operator::RightParen
    } else if i == 23 {
        Operator::LeftBracket
    } else if i == 24 {
        Operator::RightBracket
    } else if i == 25 {
        Operator::LeftBrace
    } else if i == 26 {
        Operator::RightBrace
    } else if i == 27 {
        Operator::Dot
    } else if i == 28 {
        Operator::Comma
    } else if i == 29 {
        Operator::Colon
    } else if i == 30 {
        Operator::Equal
    } else if i == 31 {
        Operator::SemiColon
    } else if i == 32 {
        Operator::Bang
    } else if i == 33 {
        Operator::Dash
    } else if i == 34 {
        Operator::Tilde
    } else if i == 35 {
        Operator::Plus
    } else if i == 36 {
        Operator::Star
    } else if i == 37 {
        Operator::Slash
    } else if i == 38 {
        Operator::Percent
    } else if i == 39 {
        Operator::LeftAngle
    } else if i == 40 {
        Operator::RightAngle
    } else if i == 41 {
        Operator::VerticalBar
    } else if i == 42 {
        Operator::Caret
    } else if i == 43 {
        Operator::Ampersand
    } else {
        Operator::Question
    }
}

/// The first operator, in lexer order from index `i` on, whose spelling occurs at `p`.
pub open spec fn spec_operator_from(s: Seq<char>, p: int, i: int) -> Option<(Operator, int)>
    decreases OPERATOR_COUNT - i,
{
    if i < 0 || i >= OPERATOR_COUNT {
        None
    } else if has_tag(s, p, op_text(op_at(i))) {
        Some((op_at(i), p + op_text(op_at(i)).len()))
    } else {
        spec_operator_from(s, p, i + 1)
    }
}

/// The operator read at `p` and the position after it: the first operator,
/// in declaration order, whose spelling occurs there (so `<<=` reads as `<<`).
pub open spec fn spec_operator(s: Seq<char>, p: int) -> Option<(Operator, int)> {
    spec_operator_from(s, p, 0)
}

/// Every operator has a non-empty spelling.
pub proof fn lemma_op_text_nonempty(op: Operator)
    ensures
        op_text(op).len() > 0,
{
    reveal_strlit("<<");
    reveal_strlit(">>");
    reveal_strlit("++");
    reveal_strlit("--");
    reveal_strlit("<=");
    reveal_strlit(">=");
    reveal_strlit("==");
    reveal_strlit("!=");
    reveal_strlit("&&");
    reveal_strlit("||");
    reveal_strlit("^^");
    reveal_strlit("*=");
    reveal_strlit("/=");
    reveal_strlit("+=");
    reveal_strlit("%=");
    reveal_strlit("<<=");
    reveal_strlit(">>=");
    reveal_strlit("&=");
    reveal_strlit("^=");
    reveal_strlit("|=");
    reveal_strlit("-=");
    reveal_strlit("(");
    reveal_strlit(")");
    reveal_strlit("[");
    reveal_strlit("]");
    reveal_strlit("{");
    reveal_strlit("}");
    reveal_strlit(".");
    reveal_strlit(",");
    reveal_strlit(":");
    reveal_strlit("=");
    reveal_strlit(";");
    reveal_strlit("!");
    reveal_strlit("-");
    reveal_strlit("~");
    reveal_strlit("+");
    reveal_strlit("*");
    reveal_strlit("/");
    reveal_strlit("%");
    reveal_strlit("<");
    reveal_strlit(">");
    reveal_strlit("|");
    reveal_strlit("^");
    reveal_strlit("&");
    reveal_strlit("?");
}

impl Operator {
    /// The spelling of the operator.
    pub fn text(&self) -> (r: &'static str)
        ensures
            r@ == op_text(*self),
    {
        match self {
            Operator::LeftOp => "<<",
            Operator::RightOp => ">>",
            Operator::IncOp => "++",
            Operator::DecOp => "--",
            Operator::LeOp => "<=",
            Operator::GeOp => ">=",
            Operator::EqOp => "==",
            Operator::NeOp => "!=",
            Operator::AndOp => "&&",
            Operator::OrOp => "||",
            Operator::XorOp => "^^",
            Operator::MulAssign => "*=",
            Operator::DivAssign => "/=",
            Operator::AddAssign => "+=",
            Operator::ModAssign => "%=",
            Operator::LeftAssign => "<<=",
            Operator::RightAssign => ">>=",
            Operator::AndAssign => "&=",
            Operator::XorAssign => "^=",
            Operator::OrAssign => "|=",
            Operator::SubAssign => "-=",
            Operator::LeftParen => "(",
            Operator::RightParen => ")",
            Operator::LeftBracket => "[",
            Operator::RightBracket => "]",
            Operator::LeftBrace => "{",
            Operator::RightBrace => "}",
            Operator::Dot => ".",
            Operator::Comma => ",",
            Operator::Colon => ":",
            Operator::Equal => "=",
            Operator::SemiColon => ";",
            Operator::Bang => "!",
            Operator::Dash => "-",
            Operator::Tilde => "~",
            Operator::Plus => "+",
            Operator::Star => "*",
            Operator::Slash => "/",
            Operator::Percent => "%",
            Operator::LeftAngle => "<",
            Operator::RightAngle => ">",
            Operator::VerticalBar => "|",
            Operator::Caret => "^",
            Operator::Ampersand => "&",
            Operator::Question => "?",
        }
    }

    /// The operator at index `i` of the lexer order.
    pub fn nth(i: usize) -> (r: Operator)
        requires
            i < OPERATOR_COUNT,
        ensures
            r == op_at(i as int),
    {
        if i == 0 {
            Operator::LeftOp
        } else if i == 1 {
            Operator::RightOp
        } else if i == 2 {
            Operator::IncOp
        } else if i == 3 {
            Operator::DecOp
        } else if i == 4 {
            Operator::LeOp
        } else if i == 5 {
            Operator::GeOp
        } else if i == 6 {
            Operator::EqOp
        } else if i == 7 {
            Operator::NeOp
        } else if i == 8 {
            Operator::AndOp
        } else if i == 9 {
            Operator::OrOp
        } else if i == 10 {
            Operator::XorOp
        } else if i == 11 {
            Operator::MulAssign
        } else if i == 12 {
            Operator::DivAssign
        } else if i == 13 {
            Operator::AddAssign
        } else if i == 14 {
            Operator::ModAssign
        } else if i == 15 {
            Operator::LeftAssign
        } else if i == 16 {
            Operator::RightAssign
        } else if i == 17 {
            Operator::AndAssign
        } else if i == 18 {
            Operator::XorAssign
        } else if i == 19 {
            Operator::OrAssign
        } else if i == 20 {
            Operator::SubAssign
        } else if i == 21 {
            Operator::LeftParen
        } else if i == 22 {
            Operator::RightParen
        } else if i == 23 {
            Operator::LeftBracket
        } else if i == 24 {
            Operator::RightBracket
        } else if i == 25 {
            Operator::LeftBrace
        } else if i == 26 {
            Operator::RightBrace
        } else if i == 27 {
            Operator::Dot
        } else if i == 28 {
            Operator::Comma
        } else if i == 29 {
            Operator::Colon
        } else if i == 30 {
            Operator::Equal
        } else if i == 31 {
            Operator::SemiColon
        } else if i == 32 {
            Operator::Bang
        } else if i == 33 {
            Operator::Dash
        } else if i == 34 {
            Operator::Tilde
        } else if i == 35 {
            Operator::Plus
        } else if i == 36 {
            Operator::Star
        } else if i == 37 {
            Operator::Slash
        } else if i == 38 {
            Operator::Percent
        } else if i == 39 {
            Operator::LeftAngle
        } else if i == 40 {
            Operator::RightAngle
        } else if i == 41 {
            Operator::VerticalBar
        } else if i == 42 {
            Operator::Caret
        } else if i == 43 {
            Operator::Ampersand
        } else {
            Operator::Question
        }
    }
}

/// Reads one operator at `p`: the first, in declaration order, whose spelling occurs there.
pub fn operator(s: &Vec<char>, p: usize) -> (r: Option<(Operator, usize)>)
    ensures
        match r {
            Some((op, q)) => spec_operator(s@, p as int) == Some((op, q as int)) && p < q <= s.len(),
            None => spec_operator(s@, p as int) is None,
        },
{
    let mut i: usize = 0;
    while i < OPERATOR_COUNT
        invariant
            i <= OPERATOR_COUNT,
            spec_operator(s@, p as int) == spec_operator_from(s@, p as int, i as int),
        decreases OPERATOR_COUNT - i,
    {
        let op = Operator::nth(i);
        let t = op.text();
        let n = t.unicode_len();
        if tag_at(s, p, t) {
            let len = s.len();
            assert(p + n <= len);
            proof {
                lemma_op_text_nonempty(op);
            }
            return Some((op, p + n));
        }
        i = i + 1;
    }
    None
}

} // verus!
