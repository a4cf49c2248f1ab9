use unrust::glsl::defeval::{Eval, EvalContextSimple, EvalError};
use unrust::glsl::expression::expression;
use unrust::glsl::token::Constant;

fn parse(s: &str) -> unrust::glsl::expression::Expression {
    let v: Vec<char> = s.chars().collect();
    expression(&v, 0).unwrap().0
}

#[test]
fn parse_eval_const_simple() {
    let e = parse("1+1");
    let r = e.eval_constant(&EvalContextSimple::default());
    assert_eq!(r.unwrap(), Constant::Integer(2));

    let e = parse("1 == 1");
    let r = e.eval_constant(&EvalContextSimple::default());
    assert_eq!(r.unwrap(), Constant::Integer(1));

    let e = parse("1 != 0");
    let r = e.eval_constant(&EvalContextSimple::default());
    assert_eq!(r.unwrap(), Constant::Integer(1));

    let e = parse("1 > 0");
    let r = e.eval_constant(&EvalContextSimple::default());
    assert_eq!(r.unwrap(), Constant::Integer(1));
}

#[test]
fn eval_error_from_message() {
    let e = EvalError::from("not a constant");
    assert_eq!(e.into_string(), "not a constant");
    let e2: EvalError = "other".into();
    assert_eq!(e2.into_string(), "other");
}
