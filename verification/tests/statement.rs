use unrust::glsl::declaration::{
    ActualType, Declaration, FullyTypeSpecifier, SingleDeclaration, TypeSpecifier, VariantTypeSpecifier,
};
use unrust::glsl::expression::{AssignOp, BinaryOp, Expression};
use unrust::glsl::statement::{
    expression_statement, iteration_statement, selection_statement, simple_statement, IterationCondition,
    JumpType, Statement,
};
use unrust::glsl::token::{BasicType, Constant};

fn chars(s: &str) -> Vec<char> {
    s.chars().collect()
}

fn id(s: &str) -> Expression {
    Expression::Identifier(s.to_string())
}

fn num(n: i64) -> Expression {
    Expression::Constant(Constant::Integer(n))
}

fn full(t: BasicType) -> FullyTypeSpecifier {
    FullyTypeSpecifier { qualifer: None, type_spec: TypeSpecifier { precision: None, actual_type: ActualType::Basic(t) } }
}

fn expr_stmt(e: Expression) -> Box<Statement> {
    Box::new(Statement::Expression(e))
}

#[test]
fn parse_expression_statement() {
    let s = chars("a+b;");
    assert_eq!(
        expression_statement(&s, 0).unwrap().0,
        Statement::Expression(Expression::Binary(BinaryOp::Add, Box::new(id("a")), Box::new(id("b"))))
    );
}

#[test]
fn parse_assignment_statemant() {
    let s = chars("gl_FragColor=vec4(result,1.0);");
    assert_eq!(
        expression_statement(&s, 0).unwrap().0,
        Statement::Expression(Expression::Assign(
            AssignOp::Equal,
            Box::new(id("gl_FragColor")),
            Box::new(Expression::FunctionCall(
                BasicType::Vec4,
                vec![id("result"), Expression::Constant(Constant::Float("1.0".to_string()))]
            ))
        ))
    );
}

#[test]
fn parse_selection_statement() {
    let s = chars(
        r#"
            if (x) {
                1;
                2;
            } else {
                {2;}
            }
        "#,
    );
    assert_eq!(
        selection_statement(&s, 0).unwrap().0,
        Statement::Selection(
            id("x"),
            Box::new(Statement::Scoped(vec![expr_stmt(num(1)), expr_stmt(num(2))])),
            Some(Box::new(Statement::Scoped(vec![Box::new(Statement::Scoped(vec![expr_stmt(num(2))]))])))
        )
    );

    let s = chars(
        r#"
            if (x) {
                1;
                2;
            }
        "#,
    );
    assert_eq!(
        selection_statement(&s, 0).unwrap().0,
        Statement::Selection(
            id("x"),
            Box::new(Statement::Scoped(vec![expr_stmt(num(1)), expr_stmt(num(2))])),
            None
        )
    );
}

#[test]
fn parse_while_statement() {
    let s = chars(
        r#"
                while(float i = 10){
                    i++;
                }
            "#,
    );
    assert_eq!(
        iteration_statement(&s, 0).unwrap().0,
        Statement::While(
            IterationCondition::InitialVariable(full(BasicType::Float), "i".to_string(), num(10)),
            Box::new(Statement::Scoped(vec![expr_stmt(Expression::PostInc(Box::new(id("i"))))]))
        )
    );
}

#[test]
fn parse_do_while_statement() {
    let s = chars(
        r#"
                do {
                    i++;
                } while(true);
            "#,
    );
    assert_eq!(
        iteration_statement(&s, 0).unwrap().0,
        Statement::DoWhile(
            Expression::Constant(Constant::Bool(true)),
            Box::new(Statement::Scoped(vec![expr_stmt(Expression::PostInc(Box::new(id("i"))))]))
        )
    );
}

#[test]
fn parse_for_statement() {
    let s = chars(
        r#"for(int i = 0; i < 10; i++) {
                j--;
            }
            "#,
    );
    assert_eq!(
        iteration_statement(&s, 0).unwrap().0,
        Statement::For(
            Box::new(Statement::Declaration(Declaration::DeclarationList(vec![SingleDeclaration {
                type_spec: VariantTypeSpecifier::Normal(full(BasicType::Int)),
                name: Some("i".to_string()),
                array_spec: None,
                equal_to: Some(num(0)),
            }]))),
            Some(IterationCondition::Expression(Expression::Binary(
                BinaryOp::LT,
                Box::new(id("i")),
                Box::new(num(10))
            ))),
            Some(Expression::PostInc(Box::new(id("i")))),
            Box::new(Statement::Scoped(vec![expr_stmt(Expression::PostDec(Box::new(id("j"))))]))
        )
    );
}

#[test]
fn parse_jump_statement() {
    let s = chars("return x;");
    assert_eq!(simple_statement(&s, 0).unwrap().0, Statement::JumpStatment(JumpType::ReturnWith(id("x"))));
}
