use unrust::glsl::declaration::{
    ActualType, Declaration, FullyTypeSpecifier, FunctionPrototype, ParamDeclaration, SingleDeclaration, Struct,
    StructMember, TypeQualifier, TypeSpecifier, VariantTypeSpecifier,
};
use unrust::glsl::expression::{AssignOp, BinaryOp, Expression};
use unrust::glsl::parser::{parse, TranslationUnit};
use unrust::glsl::query::{Query, SingleDeclarationQuery};
use unrust::glsl::statement::Statement;
use unrust::glsl::token::{BasicType, Constant};

fn ts(t: BasicType) -> TypeSpecifier {
    TypeSpecifier { precision: None, actual_type: ActualType::Basic(t) }
}

fn full(t: BasicType) -> FullyTypeSpecifier {
    FullyTypeSpecifier { qualifer: None, type_spec: ts(t) }
}

fn id(s: &str) -> Expression {
    Expression::Identifier(s.to_string())
}

fn call(f: &str, args: Vec<Expression>) -> Expression {
    Expression::FunctionCall(BasicType::TypeName(f.to_string()), args)
}

fn vec3_decl(name: &str, init: Expression) -> Box<Statement> {
    Box::new(Statement::Declaration(Declaration::DeclarationList(vec![SingleDeclaration {
        type_spec: VariantTypeSpecifier::Normal(full(BasicType::Vec3)),
        name: Some(name.to_string()),
        array_spec: None,
        equal_to: Some(init),
    }])))
}

#[test]
fn parse_basic_decl() {
    let unit = parse(
        r#" struct DirectionalLight { 
 vec3 direction ; 
 vec3 ambient ; 
 vec3 diffuse ; 
 vec3 specular ; 
 }; 
"#,
    )
    .unwrap();
    let member = |n: &str| StructMember { ts: ts(BasicType::Vec3), name: n.to_string(), array_spec: None };
    assert_eq!(
        unit,
        TranslationUnit {
            func_defs: vec![],
            decls: vec![Declaration::DeclarationList(vec![SingleDeclaration {
                type_spec: VariantTypeSpecifier::Normal(FullyTypeSpecifier {
                    qualifer: None,
                    type_spec: TypeSpecifier {
                        precision: None,
                        actual_type: ActualType::Struct(Struct {
                            name: Some("DirectionalLight".to_string()),
                            members: vec![member("direction"), member("ambient"), member("diffuse"), member("specular")],
                        }),
                    },
                }),
                name: None,
                array_spec: None,
                equal_to: None,
            }])],
        }
    );
}

#[test]
fn parse_basic_funtion() {
    let unit = parse(
        r#"
        void main ( void ) { 
 vec3 norm = normalize ( vNormal ) ; 
 vec3 viewDir = normalize ( uViewPos - vFragPos ) ; 
 vec3 result = CalcDirectionalLight ( uDirectionalLight , norm , viewDir ) ; 
 
 gl_FragColor = vec4 ( result , 1.0 ) ; 
 } "#,
    )
    .unwrap();
    let proto = FunctionPrototype {
        ret_type: full(BasicType::Void),
        name: "main".to_string(),
        params: vec![ParamDeclaration {
            type_qualifer: None,
            param_qualifier: None,
            type_spec: ts(BasicType::Void),
            name: None,
            array_spec: None,
        }],
    };
    let body = Statement::Scoped(vec![
        vec3_decl("norm", call("normalize", vec![id("vNormal")])),
        vec3_decl(
            "viewDir",
            call("normalize", vec![Expression::Binary(BinaryOp::Sub, Box::new(id("uViewPos")), Box::new(id("vFragPos")))]),
        ),
        vec3_decl("result", call("CalcDirectionalLight", vec![id("uDirectionalLight"), id("norm"), id("viewDir")])),
        Box::new(Statement::Expression(Expression::Assign(
            AssignOp::Equal,
            Box::new(id("gl_FragColor")),
            Box::new(Expression::FunctionCall(
                BasicType::Vec4,
                vec![id("result"), Expression::Constant(Constant::Float("1.0".to_string()))],
            )),
        ))),
    ]);
    assert_eq!(unit, TranslationUnit { func_defs: vec![(proto, Box::new(body))], decls: vec![] });
}

#[test]
fn preprocess_test_query_decl() {
    let unit = parse("attribute vec3 pos;").unwrap();
    let decl: Option<&SingleDeclaration> = unit.query_decl("pos").is(TypeQualifier::Attribute);
    assert!(decl.is_some());
}

#[test]
fn preprocess_test_query_decl_all() {
    let unit = parse("uniform vec3 p; uniform vec3 v;").unwrap();
    let decl: Vec<&SingleDeclaration> = unit.query_decl_all(TypeQualifier::Uniform);
    assert_eq!(decl.len(), 2);
}

#[test]
fn text_left_over_is_a_parse_error() {
    let r = parse("float x");
    assert_eq!(r.unwrap_err().0, "Parser Error: unexpected text after the last declaration");
    let unit = parse("float x; \n\t").unwrap();
    assert_eq!(unit.decls.len(), 1);
}

#[test]
fn query_finds_first_declaration_by_name() {
    let unit = parse("uniform vec3 p; varying vec2 q, p;").unwrap();
    let d = unit.query_decl("p").unwrap();
    assert_eq!(d.name, Some("p".to_string()));
    assert!(unit.query_decl("p").is(TypeQualifier::Uniform).is_some());
    assert!(unit.query_decl("q").is(TypeQualifier::Uniform).is_none());
    assert!(unit.query_decl("r").is_none());
    assert_eq!(unit.query_decl_all(TypeQualifier::Varying).len(), 2);
}
