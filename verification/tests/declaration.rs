use unrust::glsl::declaration::{
    declaration, function_prototype, param_declaration, single_declaration, ActualType, Declaration,
    FullyTypeSpecifier, FunctionPrototype, ParamDeclaration, ParamQualifier, PrecisionQualifier,
    SingleDeclaration, Struct, StructMember, TypeQualifier, TypeSpecifier, VariantTypeSpecifier,
};
use unrust::glsl::expression::Expression;
use unrust::glsl::token::{BasicType, Constant};

fn chars(s: &str) -> Vec<char> {
    s.chars().collect()
}

fn ts(precision: Option<PrecisionQualifier>, t: BasicType) -> TypeSpecifier {
    TypeSpecifier { precision, actual_type: ActualType::Basic(t) }
}

fn full(q: Option<TypeQualifier>, precision: Option<PrecisionQualifier>, t: BasicType) -> FullyTypeSpecifier {
    FullyTypeSpecifier { qualifer: q, type_spec: ts(precision, t) }
}

fn num(n: i64) -> Expression {
    Expression::Constant(Constant::Integer(n))
}

#[test]
fn parse_function_prototype_no_params() {
    let s = chars("const highp vec3 f()");
    let i = function_prototype(&s, 0);
    assert_eq!(
        i.unwrap().0,
        FunctionPrototype {
            ret_type: full(Some(TypeQualifier::Const), Some(PrecisionQualifier::High), BasicType::Vec3),
            name: "f".to_string(),
            params: vec![],
        }
    );
}

#[test]
fn parse_param_decl() {
    let s = chars("vec3 a)");
    let i = param_declaration(&s, 0);
    assert_eq!(
        i.unwrap().0,
        ParamDeclaration {
            type_qualifer: None,
            param_qualifier: None,
            type_spec: ts(None, BasicType::Vec3),
            name: Some("a".to_string()),
            array_spec: None,
        }
    );
}

#[test]
fn parse_function_prototype_with_params() {
    let s = chars("const highp vec3 f(const vec3 a, in Obj b , float a[2] )");
    let i = function_prototype(&s, 0);
    assert_eq!(
        i.unwrap().0,
        FunctionPrototype {
            ret_type: full(Some(TypeQualifier::Const), Some(PrecisionQualifier::High), BasicType::Vec3),
            name: "f".to_string(),
            params: vec![
                ParamDeclaration {
                    type_qualifer: Some(TypeQualifier::Const),
                    param_qualifier: None,
                    type_spec: ts(None, BasicType::Vec3),
                    name: Some("a".to_string()),
                    array_spec: None,
                },
                ParamDeclaration {
                    type_qualifer: None,
                    param_qualifier: Some(ParamQualifier::In),
                    type_spec: ts(None, BasicType::TypeName("Obj".to_string())),
                    name: Some("b".to_string()),
                    array_spec: None,
                },
                ParamDeclaration {
                    type_qualifer: None,
                    param_qualifier: None,
                    type_spec: ts(None, BasicType::Float),
                    name: Some("a".to_string()),
                    array_spec: Some(num(2)),
                },
            ],
        }
    );
}

#[test]
fn parse_single_declaration() {
    let s = chars("const highp vec3 name");
    assert_eq!(
        single_declaration(&s, 0).unwrap().0,
        SingleDeclaration {
            type_spec: VariantTypeSpecifier::Normal(full(
                Some(TypeQualifier::Const),
                Some(PrecisionQualifier::High),
                BasicType::Vec3
            )),
            name: Some("name".to_string()),
            array_spec: None,
            equal_to: None,
        }
    );

    let s = chars("vec3 name[12]");
    assert_eq!(
        single_declaration(&s, 0).unwrap().0,
        SingleDeclaration {
            type_spec: VariantTypeSpecifier::Normal(full(None, None, BasicType::Vec3)),
            name: Some("name".to_string()),
            array_spec: Some(num(12)),
            equal_to: None,
        }
    );

    let s = chars("float name = 10");
    assert_eq!(
        single_declaration(&s, 0).unwrap().0,
        SingleDeclaration {
            type_spec: VariantTypeSpecifier::Normal(full(None, None, BasicType::Float)),
            name: Some("name".to_string()),
            array_spec: None,
            equal_to: Some(num(10)),
        }
    );
}

fn const_high_vec3(name: &str) -> SingleDeclaration {
    SingleDeclaration {
        type_spec: VariantTypeSpecifier::Normal(full(
            Some(TypeQualifier::Const),
            Some(PrecisionQualifier::High),
            BasicType::Vec3,
        )),
        name: Some(name.to_string()),
        array_spec: None,
        equal_to: None,
    }
}

#[test]
fn parse_declaration() {
    let s = chars("const highp vec3 name;");
    assert_eq!(declaration(&s, 0).unwrap().0, Declaration::DeclarationList(vec![const_high_vec3("name")]));

    let s = chars("const highp vec3 a, b;");
    assert_eq!(
        declaration(&s, 0).unwrap().0,
        Declaration::DeclarationList(vec![const_high_vec3("a"), const_high_vec3("b")])
    );

    let s = chars("const highp vec3 name ;");
    assert_eq!(declaration(&s, 0).unwrap().0, Declaration::DeclarationList(vec![const_high_vec3("name")]));
}

fn member(t: BasicType, name: &str) -> StructMember {
    StructMember { ts: ts(None, t), name: name.to_string(), array_spec: None }
}

#[test]
fn parse_struct_declaration() {
    let s = chars("struct A { vec3 x,y,z; float f; };");
    assert_eq!(
        declaration(&s, 0).unwrap().0,
        Declaration::DeclarationList(vec![SingleDeclaration {
            type_spec: VariantTypeSpecifier::Normal(FullyTypeSpecifier {
                qualifer: None,
                type_spec: TypeSpecifier {
                    precision: None,
                    actual_type: ActualType::Struct(Struct {
                        name: Some("A".to_string()),
                        members: vec![
                            member(BasicType::Vec3, "x"),
                            member(BasicType::Vec3, "y"),
                            member(BasicType::Vec3, "z"),
                            member(BasicType::Float, "f"),
                        ],
                    }),
                },
            }),
            name: None,
            array_spec: None,
            equal_to: None,
        }])
    );
}
