use unrust::glsl::expression::{
    add_expression, assignment_expression, bit_and_expression, bit_or_expression, bit_xor_expression,
    equality_expression, expression, logical_and_expression, logical_or_expression, logical_xor_expression,
    mult_expression, postfix_expression, relational_expression, shift_expression, ternary_expression,
    unary_expression, AssignOp, BinaryOp, Expression,
};
use unrust::glsl::token::{BasicType, Constant};

fn chars(s: &str) -> Vec<char> {
    s.chars().collect()
}

fn id(s: &str) -> Expression {
    Expression::Identifier(s.to_string())
}

fn num(n: i64) -> Expression {
    Expression::Constant(Constant::Integer(n))
}

fn bin(op: BinaryOp, a: Expression, b: Expression) -> Expression {
    Expression::Binary(op, Box::new(a), Box::new(b))
}

fn parsed(r: Option<(Expression, usize)>) -> Expression {
    r.unwrap().0
}

#[test]
fn parse_expression() {
    let s = chars("(i ++) -- ");
    assert_eq!(
        parsed(postfix_expression(&s, 0)),
        Expression::PostDec(Box::new(Expression::PostInc(Box::new(id("i")))))
    );

    let s = chars("a[b]");
    assert_eq!(
        parsed(postfix_expression(&s, 0)),
        Expression::Bracket(Box::new(id("a")), Box::new(id("b")))
    );

    let s = chars("a(b,c,d,i++)");
    assert_eq!(
        parsed(postfix_expression(&s, 0)),
        Expression::FunctionCall(
            BasicType::TypeName("a".to_string()),
            vec![id("b"), id("c"), id("d"), Expression::PostInc(Box::new(id("i")))]
        )
    );
}

#[test]
fn parse_unary_expression() {
    let s = chars("-a(b,c,d,i++)");
    assert_eq!(
        parsed(unary_expression(&s, 0)),
        Expression::Minus(Box::new(Expression::FunctionCall(
            BasicType::TypeName("a".to_string()),
            vec![id("b"), id("c"), id("d"), Expression::PostInc(Box::new(id("i")))]
        )))
    );
}

#[test]
fn parse_mult_expression() {
    let s = chars("i++ * j--");
    assert_eq!(
        parsed(mult_expression(&s, 0)),
        bin(
            BinaryOp::Mult,
            Expression::PostInc(Box::new(id("i"))),
            Expression::PostDec(Box::new(id("j")))
        )
    );

    let s = chars("a*b*c");
    assert_eq!(
        parsed(mult_expression(&s, 0)),
        bin(BinaryOp::Mult, bin(BinaryOp::Mult, id("a"), id("b")), id("c"))
    );
}

#[test]
fn parse_add_expression() {
    let s = chars("a*b + j - i");
    assert_eq!(
        parsed(add_expression(&s, 0)),
        bin(
            BinaryOp::Sub,
            bin(BinaryOp::Add, bin(BinaryOp::Mult, id("a"), id("b")), id("j")),
            id("i")
        )
    );
}

#[test]
fn parse_shift_expression() {
    let s = chars("a*b >> 2");
    assert_eq!(
        parsed(shift_expression(&s, 0)),
        bin(BinaryOp::RShift, bin(BinaryOp::Mult, id("a"), id("b")), num(2))
    );
}

#[test]
fn parse_relational_expression() {
    let s = chars("2<<1 >= 1 << a");
    assert_eq!(
        parsed(relational_expression(&s, 0)),
        bin(
            BinaryOp::GTE,
            bin(BinaryOp::LShift, num(2), num(1)),
            bin(BinaryOp::LShift, num(1), id("a"))
        )
    );

    let s = chars("a <= 1 << a");
    assert_eq!(
        parsed(relational_expression(&s, 0)),
        bin(BinaryOp::LTE, id("a"), bin(BinaryOp::LShift, num(1), id("a")))
    );

    let s = chars("2<<1 > b");
    assert_eq!(
        parsed(relational_expression(&s, 0)),
        bin(BinaryOp::GT, bin(BinaryOp::LShift, num(2), num(1)), id("b"))
    );

    let s = chars("x < y");
    assert_eq!(parsed(relational_expression(&s, 0)), bin(BinaryOp::LT, id("x"), id("y")));
}

#[test]
fn parse_equality_expression() {
    let s = chars("2 == 3");
    assert_eq!(parsed(equality_expression(&s, 0)), bin(BinaryOp::Equal, num(2), num(3)));

    let s = chars("a != a");
    assert_eq!(parsed(equality_expression(&s, 0)), bin(BinaryOp::NonEqual, id("a"), id("a")));
}

#[test]
fn parse_bit_and_expression() {
    let s = chars("2 == 3 & 4 == 5");
    assert_eq!(
        parsed(bit_and_expression(&s, 0)),
        bin(
            BinaryOp::BitAnd,
            bin(BinaryOp::Equal, num(2), num(3)),
            bin(BinaryOp::Equal, num(4), num(5))
        )
    );
}

#[test]
fn parse_bit_xor_expression() {
    let s = chars("2 & 3 ^ 4");
    assert_eq!(
        parsed(bit_xor_expression(&s, 0)),
        bin(BinaryOp::BitXor, bin(BinaryOp::BitAnd, num(2), num(3)), num(4))
    );
}

#[test]
fn parse_bit_or_expression() {
    let s = chars("2 & 3 | 4");
    assert_eq!(
        parsed(bit_or_expression(&s, 0)),
        bin(BinaryOp::BitOr, bin(BinaryOp::BitAnd, num(2), num(3)), num(4))
    );
}

#[test]
fn parse_logical_and_expression() {
    let s = chars("2 && 3");
    assert_eq!(parsed(logical_and_expression(&s, 0)), bin(BinaryOp::And, num(2), num(3)));
}

#[test]
fn parse_logical_xor_expression() {
    let s = chars("2 ^^ 3");
    assert_eq!(parsed(logical_xor_expression(&s, 0)), bin(BinaryOp::Xor, num(2), num(3)));
}

#[test]
fn parse_logical_or_expression() {
    let s = chars("2 || 3");
    assert_eq!(parsed(logical_or_expression(&s, 0)), bin(BinaryOp::Or, num(2), num(3)));
}

#[test]
fn parse_ternary_expression() {
    let s = chars("1 > 2 ? 10 : 3");
    assert_eq!(
        parsed(ternary_expression(&s, 0)),
        Expression::Ternary(
            Box::new(bin(BinaryOp::GT, num(1), num(2))),
            Box::new(num(10)),
            Box::new(num(3))
        )
    );
}

#[test]
fn parse_assignment_expression() {
    let s = chars("b = 1 > 2");
    assert_eq!(
        parsed(assignment_expression(&s, 0)),
        Expression::Assign(AssignOp::Equal, Box::new(id("b")), Box::new(bin(BinaryOp::GT, num(1), num(2))))
    );

    let s = chars("b = x *= y");
    assert_eq!(
        parsed(assignment_expression(&s, 0)),
        Expression::Assign(
            AssignOp::Equal,
            Box::new(id("b")),
            Box::new(Expression::Assign(AssignOp::MulAssign, Box::new(id("x")), Box::new(id("y"))))
        )
    );

    let s = chars("a > b ? c : a ? b : c");
    assert_eq!(
        parsed(ternary_expression(&s, 0)),
        Expression::Ternary(
            Box::new(bin(BinaryOp::GT, id("a"), id("b"))),
            Box::new(id("c")),
            Box::new(Expression::Ternary(Box::new(id("a")), Box::new(id("b")), Box::new(id("c"))))
        )
    );
}

#[test]
fn parse_comma_expression() {
    let s = chars("b = 1, a = 3");
    assert_eq!(
        parsed(expression(&s, 0)),
        Expression::Comma(vec![
            Expression::Assign(AssignOp::Equal, Box::new(id("a")), Box::new(num(3))),
            Expression::Assign(AssignOp::Equal, Box::new(id("b")), Box::new(num(1))),
        ])
    );
}
