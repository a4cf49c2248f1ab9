//! Declarations: types with their qualifiers, function prototypes, variable
//! declarations and precision statements.
use vstd::prelude::*;
use crate::text::{skip_ws, skip_ws_at, lemma_skip_ws_bounds, has_tag};
use crate::glsl::token::{
    BasicType, Identifier, SBasicType, spec_basic_type, spec_identifier, basic_type, valid_name,
};
use crate::glsl::expression::{
    Expression, SExpr, view_expr, tag_end, tag_end_at, adv, spec_assignment, spec_array_spec,
    assignment_expression, array_specifier, parsed,
};

verus! {

/// The storage qualifier of a declaration.
#[derive(Debug, Clone, Copy, PartialEq, Eq, Structural)]
pub enum TypeQualifier {
    Const,
    Attribute,
    Varying,
    InvariantVarying,
    Uniform,
}

/// The precision of a type.
#[derive(Debug, Clone, Copy, PartialEq, Eq, Structural)]
pub enum PrecisionQualifier {
    High,
    Medium,
    Low,
}

/// The direction of a parameter.
#[derive(Debug, Clone, Copy, PartialEq, Eq, Structural)]
pub enum ParamQualifier {
    In,
    Out,
    InOut,
}

/// A member of a struct type.
#[derive(Debug, PartialEq)]
pub struct StructMember {
    pub ts: TypeSpecifier,
    pub name: Identifier,
    pub array_spec: Option<Expression>,
}

/// A struct type: its name, if it has one, and its members.
#[derive(Debug, PartialEq)]
pub struct Struct {
    pub name: Option<Identifier>,
    pub members: Vec<StructMember>,
}

/// The type a type specifier names: a basic (or named) type, or a struct
/// type declared in place.
#[derive(Debug, PartialEq)]
pub enum ActualType {
    Basic(BasicType),
    Struct(Struct),
}

/// A type with its precision.
#[derive(Debug, PartialEq)]
pub struct TypeSpecifier {
    pub precision: Option<PrecisionQualifier>,
    pub actual_type: ActualType,
}

/// A type with its storage qualifier.
#[derive(Debug, PartialEq)]
pub struct FullyTypeSpecifier {
    pub qualifer: Option<TypeQualifier>,
    pub type_spec: TypeSpecifier,
}

/// A parameter of a function prototype.
#[derive(Debug, PartialEq)]
pub struct ParamDeclaration {
    pub type_qualifer: Option<TypeQualifier>,
    pub param_qualifier: Option<ParamQualifier>,
    pub type_spec: TypeSpecifier,
    pub name: Option<Identifier>,
    pub array_spec: Option<Expression>,
}

/// A function prototype: return type, name and parameters.
#[derive(Debug, PartialEq)]
pub struct FunctionPrototype {
    pub ret_type: FullyTypeSpecifier,
    pub name: Identifier,
    pub params: Vec<ParamDeclaration>,
}

/// The type of a declared variable, or `invariant` for a redeclaration.
#[derive(Debug, PartialEq)]
pub enum VariantTypeSpecifier {
    Normal(FullyTypeSpecifier),
    Invariant,
}

/// One declared variable: its type, name, array size and initializer.
#[derive(Debug, PartialEq)]
pub struct SingleDeclaration {
    pub type_spec: VariantTypeSpecifier,
    pub name: Option<Identifier>,
    pub array_spec: Option<Expression>,
    pub equal_to: Option<Expression>,
}

/// A declaration: a function prototype, a list of variables of one type, or
/// a default precision for a type.
#[derive(Debug, PartialEq)]
pub enum Declaration {
    FunctionPrototype(FunctionPrototype),
    DeclarationList(Vec<SingleDeclaration>),
    Precision(PrecisionQualifier, BasicType),
}

// ---------------------------------------------------------------------------
// Models
// ---------------------------------------------------------------------------

pub ghost struct SStructMember {
    pub ts: STypeSpec,
    pub name: Seq<char>,
    pub array_spec: Option<SExpr>,
}

pub ghost struct SStruct {
    pub name: Option<Seq<char>>,
    pub members: Seq<SStructMember>,
}

pub ghost enum SActualType {
    Basic(SBasicType),
    Struct(SStruct),
}

pub ghost struct STypeSpec {
    pub precision: Option<PrecisionQualifier>,
    pub actual_type: SActualType,
}

pub ghost struct SFullType {
    pub qualifer: Option<TypeQualifier>,
    pub type_spec: STypeSpec,
}

pub ghost struct SParam {
    pub type_qualifer: Option<TypeQualifier>,
    pub param_qualifier: Option<ParamQualifier>,
    pub type_spec: STypeSpec,
    pub name: Option<Seq<char>>,
    pub array_spec: Option<SExpr>,
}

pub ghost struct SProto {
    pub ret_type: SFullType,
    pub name: Seq<char>,
    pub params: Seq<SParam>,
}

pub ghost enum SVariant {
    Normal(SFullType),
    Invariant,
}

pub ghost struct SSingle {
    pub type_spec: SVariant,
    pub name: Option<Seq<char>>,
    pub array_spec: Option<SExpr>,
    pub equal_to: Option<SExpr>,
}

pub ghost enum SDecl {
    FunctionPrototype(SProto),
    DeclarationList(Seq<SSingle>),
    Precision(PrecisionQualifier, SBasicType),
}

pub open spec fn opt_expr(e: Option<Expression>) -> Option<SExpr> {
    match e {
        Some(x) => Some(view_expr(x)),
        None => None,
    }
}

pub open spec fn opt_name(n: Option<Identifier>) -> Option<Seq<char>> {
    match n {
        Some(x) => Some(x@),
        None => None,
    }
}

pub open spec fn view_type_spec(t: TypeSpecifier) -> STypeSpec
    decreases t,
{
    STypeSpec { precision: t.precision, actual_type: view_actual(t.actual_type) }
}

pub open spec fn view_actual(a: ActualType) -> SActualType
    decreases a,
{
    match a {
        ActualType::Basic(b) => SActualType::Basic(b@),
        ActualType::Struct(s) => SActualType::Struct(view_struct(s)),
    }
}

pub open spec fn view_struct(s: Struct) -> SStruct
    decreases s,
{
    SStruct { name: opt_name(s.name), members: view_members(s.members@) }
}

pub open spec fn view_members(ms: Seq<StructMember>) -> Seq<SStructMember>
    decreases ms,
{
    if ms.len() == 0 {
        Seq::empty()
    } else {
        view_members(ms.drop_last()).push(view_member(ms.last()))
    }
}

pub open spec fn view_member(m: StructMember) -> SStructMember
    decreases m,
{
    SStructMember { ts: view_type_spec(m.ts), name: m.name@, array_spec: opt_expr(m.array_spec) }
}

pub open spec fn view_full(f: FullyTypeSpecifier) -> SFullType {
    SFullType { qualifer: f.qualifer, type_spec: view_type_spec(f.type_spec) }
}

pub open spec fn view_param(d: ParamDeclaration) -> SParam {
    SParam {
        type_qualifer: d.type_qualifer,
        param_qualifier: d.param_qualifier,
        type_spec: view_type_spec(d.type_spec),
        name: opt_name(d.name),
        array_spec: opt_expr(d.array_spec),
    }
}

pub open spec fn view_params(ps: Seq<ParamDeclaration>) -> Seq<SParam> {
    ps.map_values(|d: ParamDeclaration| view_param(d))
}

pub open spec fn view_proto(f: FunctionPrototype) -> SProto {
    SProto { ret_type: view_full(f.ret_type), name: f.name@, params: view_params(f.params@) }
}

pub open spec fn view_variant(v: VariantTypeSpecifier) -> SVariant {
    match v {
        VariantTypeSpecifier::Normal(f) => SVariant::Normal(view_full(f)),
        VariantTypeSpecifier::Invariant => SVariant::Invariant,
    }
}

pub open spec fn view_single(d: SingleDeclaration) -> SSingle {
    SSingle {
        type_spec: view_variant(d.type_spec),
        name: opt_name(d.name),
        array_spec: opt_expr(d.array_spec),
        equal_to: opt_expr(d.equal_to),
    }
}

pub open spec fn view_singles(ds: Seq<SingleDeclaration>) -> Seq<SSingle> {
    ds.map_values(|d: SingleDeclaration| view_single(d))
}

pub open spec fn view_decl(d: Declaration) -> SDecl {
    match d {
        Declaration::FunctionPrototype(f) => SDecl::FunctionPrototype(view_proto(f)),
        Declaration::DeclarationList(ds) => SDecl::DeclarationList(view_singles(ds@)),
        Declaration::Precision(q, t) => SDecl::Precision(q, t@),
    }
}

impl View for TypeSpecifier {
    type V = STypeSpec;

    open spec fn view(&self) -> STypeSpec {
        view_type_spec(*self)
    }
}

impl View for FullyTypeSpecifier {
    type V = SFullType;

    open spec fn view(&self) -> SFullType {
        view_full(*self)
    }
}

impl View for ParamDeclaration {
    type V = SParam;

    open spec fn view(&self) -> SParam {
        view_param(*self)
    }
}

impl View for FunctionPrototype {
    type V = SProto;

    open spec fn view(&self) -> SProto {
        view_proto(*self)
    }
}

impl View for SingleDeclaration {
    type V = SSingle;

    open spec fn view(&self) -> SSingle {
        view_single(*self)
    }
}

impl View for Declaration {
    type V = SDecl;

    open spec fn view(&self) -> SDecl {
        view_decl(*self)
    }
}

pub proof fn lemma_view_members_push(ms: Seq<StructMember>, m: StructMember)
    ensures
        view_members(ms.push(m)) == view_members(ms).push(view_member(m)),
{
    assert(ms.push(m).drop_last() =~= ms);
}

// ---------------------------------------------------------------------------
// The grammar
// ---------------------------------------------------------------------------

/// The literal `t` after whitespace at `p`: the position after it.
pub open spec fn kw(s: Seq<char>, p: int, t: Seq<char>) -> Option<int> {
    tag_end(s, skip_ws(s, p), t)
}

/// `inout`, `in` or `out` (tried in this order) after whitespace.
pub open spec fn spec_param_qualifier(s: Seq<char>, p: int) -> Option<(ParamQualifier, int)> {
    let q = skip_ws(s, p);
    match tag_end(s, q, "inout"@) {
        Some(e) => Some((ParamQualifier::InOut, e)),
        None => match tag_end(s, q, "in"@) {
            Some(e) => Some((ParamQualifier::In, e)),
            None => match tag_end(s, q, "out"@) {
                Some(e) => Some((ParamQualifier::Out, e)),
                None => None,
            },
        },
    }
}

/// `highp`, `mediump` or `lowp` after whitespace.
pub open spec fn spec_precision_qualifier(s: Seq<char>, p: int) -> Option<(PrecisionQualifier, int)> {
    let q = skip_ws(s, p);
    match tag_end(s, q, "highp"@) {
        Some(e) => Some((PrecisionQualifier::High, e)),
        None => match tag_end(s, q, "mediump"@) {
            Some(e) => Some((PrecisionQualifier::Medium, e)),
            None => match tag_end(s, q, "lowp"@) {
                Some(e) => Some((PrecisionQualifier::Low, e)),
                None => None,
            },
        },
    }
}

/// `const`, `attribute`, `invariant` directly followed by `varying`,
/// `varying` or `uniform` (tried in this order) after whitespace.
pub open spec fn spec_type_qualifier(s: Seq<char>, p: int) -> Option<(TypeQualifier, int)> {
    let q = skip_ws(s, p);
    match tag_end(s, q, "const"@) {
        Some(e) => Some((TypeQualifier::Const, e)),
        None => match tag_end(s, q, "attribute"@) {
            Some(e) => Some((TypeQualifier::Attribute, e)),
            None => match (match tag_end(s, q, "invariant"@) {
                Some(a) => tag_end(s, a, "varying"@),
                None => None,
            }) {
                Some(e) => Some((TypeQualifier::InvariantVarying, e)),
                None => match tag_end(s, q, "varying"@) {
                    Some(e) => Some((TypeQualifier::Varying, e)),
                    None => match tag_end(s, q, "uniform"@) {
                        Some(e) => Some((TypeQualifier::Uniform, e)),
                        None => None,
                    },
                },
            },
        },
    }
}

/// An identifier after whitespace, if there is one; else nothing, at `p`.
pub open spec fn opt_ident(s: Seq<char>, p: int) -> (Option<Seq<char>>, int) {
    match spec_identifier(s, skip_ws(s, p)) {
        Some((w, e)) => (Some(w), e),
        None => (None, p),
    }
}

/// An `[expression]` if there is one; else nothing, at `p`.
pub open spec fn opt_array(s: Seq<char>, p: int) -> (Option<SExpr>, int) {
    match spec_array_spec(s, p) {
        Some((x, e)) => (Some(x), e),
        None => (None, p),
    }
}

/// `type_specifier`: an optional precision, then a basic type keyword, a
/// struct specifier or a type name.
pub open spec fn spec_type_specifier(s: Seq<char>, p: int) -> Option<(STypeSpec, int)>
    decreases s.len() - p, 2int,
{
    if !(0 <= p <= s.len()) {
        None
    } else {
        proof {
            lemma_skip_ws_bounds(s, p);
        }
        let q0 = skip_ws(s, p);
        let (prec, q1) = match spec_precision_qualifier(s, q0) {
            Some((pq, e)) => (Some(pq), e),
            None => (None, q0),
        };
        if !(q0 <= q1 <= s.len()) {
            None
        } else {
            proof {
                lemma_skip_ws_bounds(s, q1);
            }
            let q2 = skip_ws(s, q1);
            match spec_basic_type(s, q2) {
                Some((t, e)) => Some((STypeSpec { precision: prec, actual_type: SActualType::Basic(t) }, e)),
                None => match spec_struct_specifier(s, q2) {
                    Some((st, e)) => Some((STypeSpec { precision: prec, actual_type: SActualType::Struct(st) }, e)),
                    None => match spec_identifier(s, q2) {
                        Some((w, e)) => Some(
                            (STypeSpec { precision: prec, actual_type: SActualType::Basic(SBasicType::TypeName(w)) }, e),
                        ),
                        None => None,
                    },
                },
            }
        }
    }
}

/// `struct_specifier`: `struct`, an optional name, `{`, member declarations,
/// `}`; the members of all declarations in order.
pub open spec fn spec_struct_specifier(s: Seq<char>, p: int) -> Option<(SStruct, int)>
    decreases s.len() - p, 1int,
{
    if !(0 <= p <= s.len()) {
        None
    } else {
        match kw(s, p, "struct"@) {
            Some(a) => {
                let (n, b) = opt_ident(s, a);
                match kw(s, b, "{"@) {
                    Some(c) => if adv(p, c, s.len()) {
                        let (ms, d) = spec_members(s, c, Seq::empty());
                        match kw(s, d, "}"@) {
                            Some(e) => Some((SStruct { name: n, members: ms }, e)),
                            None => None,
                        }
                    } else {
                        None
                    },
                    None => None,
                }
            },
            None => None,
        }
    }
}

/// Member declarations one after another from `p`, after the members `acc`.
pub open spec fn spec_members(s: Seq<char>, p: int, acc: Seq<SStructMember>) -> (Seq<SStructMember>, int)
    decreases s.len() - p, 4int,
{
    if !(0 <= p <= s.len()) {
        (acc, p)
    } else {
        match spec_member_decl(s, p) {
            Some((ms, e)) => if adv(p, e, s.len()) {
                spec_members(s, e, acc + ms)
            } else {
                (acc, p)
            },
            None => (acc, p),
        }
    }
}

/// `struct_member_declaration`: a type, then names (each with an optional
/// array size) separated by commas with no whitespace before a name or a
/// comma, then `;`. Each member has the declaration's type.
pub open spec fn spec_member_decl(s: Seq<char>, p: int) -> Option<(Seq<SStructMember>, int)>
    decreases s.len() - p, 3int,
{
    if !(0 <= p <= s.len()) {
        None
    } else {
        match spec_type_specifier(s, p) {
            Some((ts, a)) => match spec_identifier(s, skip_ws(s, a)) {
                Some((n, b)) => {
                    let (ar, c) = opt_array(s, b);
                    let (ms, d) = spec_member_names(s, c, ts, seq![SStructMember { ts: ts, name: n, array_spec: ar }]);
                    match kw(s, d, ";"@) {
                        Some(e) => Some((ms, e)),
                        None => None,
                    }
                },
                None => None,
            },
            None => None,
        }
    }
}

/// The `,name[size]` parts of a member declaration after its first name.
pub open spec fn spec_member_names(s: Seq<char>, p: int, ts: STypeSpec, acc: Seq<SStructMember>) -> (Seq<SStructMember>, int)
    decreases s.len() - p,
{
    if !(0 <= p <= s.len()) {
        (acc, p)
    } else {
        match tag_end(s, p, ","@) {
            Some(a) => match spec_identifier(s, a) {
                Some((n, b)) => {
                    let (ar, c) = opt_array(s, b);
                    if adv(p, c, s.len()) {
                        spec_member_names(s, c, ts, acc.push(SStructMember { ts: ts, name: n, array_spec: ar }))
                    } else {
                        (acc, p)
                    }
                },
                None => (acc, p),
            },
            None => (acc, p),
        }
    }
}

/// `fully_type_specifier`: an optional storage qualifier, then a type.
pub open spec fn spec_full_type(s: Seq<char>, p: int) -> Option<(SFullType, int)> {
    let (q, a) = match spec_type_qualifier(s, p) {
        Some((t, e)) => (Some(t), e),
        None => (None, p),
    };
    match spec_type_specifier(s, a) {
        Some((ts, b)) => Some((SFullType { qualifer: q, type_spec: ts }, b)),
        None => None,
    }
}

/// `param_declaration`: optional storage and parameter qualifiers, a type,
/// an optional name and an optional array size.
pub open spec fn spec_param_decl(s: Seq<char>, p: int) -> Option<(SParam, int)> {
    let (tq, q1) = match spec_type_qualifier(s, p) {
        Some((t, e)) => (Some(t), e),
        None => (None, p),
    };
    let (pq, q2) = match spec_param_qualifier(s, q1) {
        Some((t, e)) => (Some(t), e),
        None => (None, q1),
    };
    match spec_type_specifier(s, q2) {
        Some((ts, q3)) => {
            let (n, q4) = opt_ident(s, q3);
            let (ar, q5) = opt_array(s, q4);
            Some((SParam { type_qualifer: tq, param_qualifier: pq, type_spec: ts, name: n, array_spec: ar }, q5))
        },
        None => None,
    }
}

/// The parameters of a prototype: none when the first cannot be read; then
/// `, parameter` parts.
pub open spec fn spec_params(s: Seq<char>, p: int) -> (Seq<SParam>, int) {
    match spec_param_decl(s, p) {
        Some((d, e)) => if adv(p, e, s.len()) {
            spec_params_rest(s, e, seq![d])
        } else {
            (Seq::empty(), p)
        },
        None => (Seq::empty(), p),
    }
}

pub open spec fn spec_params_rest(s: Seq<char>, p: int, acc: Seq<SParam>) -> (Seq<SParam>, int)
    decreases s.len() - p,
{
    if !(0 <= p <= s.len()) {
        (acc, p)
    } else {
        match kw(s, p, ","@) {
            Some(a) => match spec_param_decl(s, a) {
                Some((d, e)) => if adv(p, e, s.len()) {
                    spec_params_rest(s, e, acc.push(d))
                } else {
                    (acc, p)
                },
                None => (acc, p),
            },
            None => (acc, p),
        }
    }
}

/// `function_prototype`: a full type, a name, `(`, parameters, `)`.
pub open spec fn spec_function_prototype(s: Seq<char>, p: int) -> Option<(SProto, int)> {
    match spec_full_type(s, p) {
        Some((ft, a)) => match spec_identifier(s, skip_ws(s, a)) {
            Some((n, b)) => match kw(s, b, "("@) {
                Some(c) => {
                    let (ps, d) = spec_params(s, c);
                    match kw(s, d, ")"@) {
                        Some(e) => Some((SProto { ret_type: ft, name: n, params: ps }, e)),
                        None => None,
                    }
                },
                None => None,
            },
            None => None,
        },
        None => None,
    }
}

/// `single_declaration`: `invariant name`; or a full type, a name, `=` and an
/// initializer; or a full type, an optional name and an optional array size.
pub open spec fn spec_single_declaration(s: Seq<char>, p: int) -> Option<(SSingle, int)> {
    let first = match kw(s, p, "invariant"@) {
        Some(a) => match spec_identifier(s, skip_ws(s, a)) {
            Some((n, b)) => Some((SSingle { type_spec: SVariant::Invariant, name: Some(n), array_spec: None, equal_to: None }, b)),
            None => None,
        },
        None => None,
    };
    let second = match spec_full_type(s, p) {
        Some((ft, a)) => match spec_identifier(s, skip_ws(s, a)) {
            Some((n, b)) => match kw(s, b, "="@) {
                Some(c) => match spec_assignment(s, c) {
                    Some((e, d)) => if adv(c, d, s.len()) {
                        Some((SSingle { type_spec: SVariant::Normal(ft), name: Some(n), array_spec: None, equal_to: Some(e) }, d))
                    } else {
                        None
                    },
                    None => None,
                },
                None => None,
            },
            None => None,
        },
        None => None,
    };
    let third = match spec_full_type(s, p) {
        Some((ft, a)) => {
            let (n, b) = opt_ident(s, a);
            let (ar, c) = opt_array(s, b);
            Some((SSingle { type_spec: SVariant::Normal(ft), name: n, array_spec: ar, equal_to: None }, c))
        },
        None => None,
    };
    match first {
        Some(x) => Some(x),
        None => match second {
            Some(x) => Some(x),
            None => third,
        },
    }
}

/// A `, name ...` part of a declaration list, declaring a variable of the
/// type `ty`: a name with an array size, a name with an initializer, or a name.
pub open spec fn spec_list_part(s: Seq<char>, p: int, ty: SVariant) -> Option<(SSingle, int)> {
    match kw(s, p, ","@) {
        Some(a) => match spec_identifier(s, skip_ws(s, a)) {
            Some((n, b)) => match spec_array_spec(s, b) {
                Some((x, c)) => Some((SSingle { type_spec: ty, name: Some(n), array_spec: Some(x), equal_to: None }, c)),
                None => match (match kw(s, b, "="@) {
                    Some(c) => match spec_assignment(s, c) {
                        Some((e, d)) => if adv(c, d, s.len()) { Some((e, d)) } else { None },
                        None => None,
                    },
                    None => None,
                }) {
                    Some((e, d)) => Some((SSingle { type_spec: ty, name: Some(n), array_spec: None, equal_to: Some(e) }, d)),
                    None => Some((SSingle { type_spec: ty, name: Some(n), array_spec: None, equal_to: None }, b)),
                },
            },
            None => None,
        },
        None => None,
    }
}

/// The parts of a declaration list after its first declaration.
pub open spec fn spec_list_parts(s: Seq<char>, p: int, ty: SVariant, acc: Seq<SSingle>) -> (Seq<SSingle>, int)
    decreases s.len() - p,
{
    if !(0 <= p <= s.len()) {
        (acc, p)
    } else {
        match spec_list_part(s, p, ty) {
            Some((d, e)) => if adv(p, e, s.len()) {
                spec_list_parts(s, e, ty, acc.push(d))
            } else {
                (acc, p)
            },
            None => (acc, p),
        }
    }
}

/// `declaration_list`: a single declaration, then `, name ...` parts that
/// declare variables of its type.
pub open spec fn spec_declaration_list(s: Seq<char>, p: int) -> Option<(Seq<SSingle>, int)> {
    match spec_single_declaration(s, p) {
        Some((sd, a)) => Some(spec_list_parts(s, a, sd.type_spec, seq![sd])),
        None => None,
    }
}

/// `declaration`: a function prototype, a declaration list, or `precision`
/// with a precision qualifier and a basic type (the first of these that can be
/// read), then `;`.
pub open spec fn spec_declaration(s: Seq<char>, p: int) -> Option<(SDecl, int)> {
    let body = match spec_function_prototype(s, p) {
        Some((f, e)) => Some((SDecl::FunctionPrototype(f), e)),
        None => match spec_declaration_list(s, p) {
            Some((ds, e)) => Some((SDecl::DeclarationList(ds), e)),
            None => match kw(s, p, "precision"@) {
                Some(a) => match spec_precision_qualifier(s, a) {
                    Some((pq, b)) => match spec_basic_type(s, skip_ws(s, b)) {
                        Some((t, c)) => Some((SDecl::Precision(pq, t), c)),
                        None => None,
                    },
                    None => None,
                },
                None => None,
            },
        },
    };
    match body {
        Some((d, e)) => match kw(s, e, ";"@) {
            Some(f) => Some((d, f)),
            None => None,
        },
        None => None,
    }
}

// ---------------------------------------------------------------------------
// Copies
// ---------------------------------------------------------------------------

fn copy_opt_expr(e: &Option<Expression>) -> (r: Option<Expression>)
    ensures
        opt_expr(r) == opt_expr(*e),
{
    match e {
        Some(x) => Some(x.copy()),
        None => None,
    }
}

fn copy_opt_name(n: &Option<Identifier>) -> (r: Option<Identifier>)
    ensures
        opt_name(r) == opt_name(*n),
{
    match n {
        Some(x) => Some(x.clone()),
        None => None,
    }
}

impl TypeSpecifier {
    /// A copy of the type.
    pub fn copy(&self) -> (r: TypeSpecifier)
        ensures
            r@ == self@,
        decreases self,
    {
        TypeSpecifier { precision: self.precision, actual_type: copy_actual(&self.actual_type) }
    }
}

fn copy_actual(a: &ActualType) -> (r: ActualType)
    ensures
        view_actual(r) == view_actual(*a),
    decreases a,
{
    match a {
        ActualType::Basic(b) => ActualType::Basic(b.copy()),
        ActualType::Struct(st) => ActualType::Struct(copy_struct(st)),
    }
}

fn copy_struct(st: &Struct) -> (r: Struct)
    ensures
        view_struct(r) == view_struct(*st),
    decreases st,
{
    Struct { name: copy_opt_name(&st.name), members: copy_members(&st.members) }
}

fn copy_members(ms: &Vec<StructMember>) -> (r: Vec<StructMember>)
    ensures
        view_members(r@) == view_members(ms@),
    decreases ms,
{
    let mut r: Vec<StructMember> = Vec::new();
    let mut i: usize = 0;
    assert(ms@.subrange(0, 0) =~= Seq::<StructMember>::empty());
    while i < ms.len()
        invariant
            i <= ms.len(),
            view_members(r@) == view_members(ms@.subrange(0, i as int)),
            forall|j: int| 0 <= j < ms@.len() ==> decreases_to!(ms => #[trigger] ms@[j]),
        decreases ms.len() - i,
    {
        let m = copy_member(&ms[i]);
        proof {
            lemma_view_members_push(r@, m);
            lemma_view_members_push(ms@.subrange(0, i as int), ms@[i as int]);
            assert(ms@.subrange(0, i + 1) =~= ms@.subrange(0, i as int).push(ms@[i as int]));
        }
        r.push(m);
        i = i + 1;
    }
    assert(ms@.subrange(0, ms@.len() as int) =~= ms@);
    r
}

fn copy_member(m: &StructMember) -> (r: StructMember)
    ensures
        view_member(r) == view_member(*m),
    decreases m,
{
    StructMember { ts: m.ts.copy(), name: m.name.clone(), array_spec: copy_opt_expr(&m.array_spec) }
}

impl FullyTypeSpecifier {
    /// A copy of the type.
    pub fn copy(&self) -> (r: FullyTypeSpecifier)
        ensures
            r@ == self@,
    {
        FullyTypeSpecifier { qualifer: self.qualifer, type_spec: self.type_spec.copy() }
    }
}

impl VariantTypeSpecifier {
    /// A copy of the type.
    pub fn copy(&self) -> (r: VariantTypeSpecifier)
        ensures
            view_variant(r) == view_variant(*self),
    {
        match self {
            VariantTypeSpecifier::Normal(f) => VariantTypeSpecifier::Normal(f.copy()),
            VariantTypeSpecifier::Invariant => VariantTypeSpecifier::Invariant,
        }
    }
}

// ---------------------------------------------------------------------------
// Executable parsers
// ---------------------------------------------------------------------------

fn kw_at(s: &Vec<char>, p: usize, t: &str) -> (r: Option<usize>)
    requires
        p <= s.len(),
    ensures
        match r {
            Some(q) => kw(s@, p as int, t@) == Some(q as int) && p < q <= s.len(),
            None => kw(s@, p as int, t@) is None,
        },
{
    let q = skip_ws_at(s, p);
    tag_end_at(s, q, t)
}

fn param_qualifier(s: &Vec<char>, p: usize) -> (r: Option<(ParamQualifier, usize)>)
    requires
        p <= s.len(),
    ensures
        match r {
            Some((x, e)) => spec_param_qualifier(s@, p as int) == Some((x, e as int)) && p < e <= s.len(),
            None => spec_param_qualifier(s@, p as int) is None,
        },
{
    let q = skip_ws_at(s, p);
    if let Some(e) = tag_end_at(s, q, "inout") {
        return Some((ParamQualifier::InOut, e));
    }
    if let Some(e) = tag_end_at(s, q, "in") {
        return Some((ParamQualifier::In, e));
    }
    if let Some(e) = tag_end_at(s, q, "out") {
        return Some((ParamQualifier::Out, e));
    }
    None
}

fn precision_qualifier(s: &Vec<char>, p: usize) -> (r: Option<(PrecisionQualifier, usize)>)
    requires
        p <= s.len(),
    ensures
        match r {
            Some((x, e)) => spec_precision_qualifier(s@, p as int) == Some((x, e as int)) && p < e <= s.len(),
            None => spec_precision_qualifier(s@, p as int) is None,
        },
{
    let q = skip_ws_at(s, p);
    if let Some(e) = tag_end_at(s, q, "highp") {
        return Some((PrecisionQualifier::High, e));
    }
    if let Some(e) = tag_end_at(s, q, "mediump") {
        return Some((PrecisionQualifier::Medium, e));
    }
    if let Some(e) = tag_end_at(s, q, "lowp") {
        return Some((PrecisionQualifier::Low, e));
    }
    None
}

fn type_qualifier(s: &Vec<char>, p: usize) -> (r: Option<(TypeQualifier, usize)>)
    requires
        p <= s.len(),
    ensures
        match r {
            Some((x, e)) => spec_type_qualifier(s@, p as int) == Some((x, e as int)) && p < e <= s.len(),
            None => spec_type_qualifier(s@, p as int) is None,
        },
{
    let q = skip_ws_at(s, p);
    if let Some(e) = tag_end_at(s, q, "const") {
        return Some((TypeQualifier::Const, e));
    }
    if let Some(e) = tag_end_at(s, q, "attribute") {
        return Some((TypeQualifier::Attribute, e));
    }
    if let Some(a) = tag_end_at(s, q, "invariant") {
        if let Some(e) = tag_end_at(s, a, "varying") {
            return Some((TypeQualifier::InvariantVarying, e));
        }
    }
    if let Some(e) = tag_end_at(s, q, "varying") {
        return Some((TypeQualifier::Varying, e));
    }
    if let Some(e) = tag_end_at(s, q, "uniform") {
        return Some((TypeQualifier::Uniform, e));
    }
    None
}

fn opt_ident_at(s: &Vec<char>, p: usize) -> (r: (Option<Identifier>, usize))
    requires
        p <= s.len(),
    ensures
        (opt_name(r.0), r.1 as int) == opt_ident(s@, p as int),
        p <= r.1 <= s.len(),
{
    let q = skip_ws_at(s, p);
    match valid_name(s, q) {
        Some((w, e)) => (Some(w), e),
        None => (None, p),
    }
}

fn opt_array_at(s: &Vec<char>, p: usize) -> (r: (Option<Expression>, usize))
    requires
        p <= s.len(),
    ensures
        (opt_expr(r.0), r.1 as int) == opt_array(s@, p as int),
        p <= r.1 <= s.len(),
{
    match array_specifier(s, p) {
        Some((x, e)) => (Some(x), e),
        None => (None, p),
    }
}

pub open spec fn parsed_ts(r: Option<(TypeSpecifier, usize)>) -> Option<(STypeSpec, int)> {
    match r {
        Some((t, e)) => Some((t@, e as int)),
        None => None,
    }
}

/// Reads a type specifier at `p` (see [`spec_type_specifier`]).
pub fn type_specifier(s: &Vec<char>, p: usize) -> (r: Option<(TypeSpecifier, usize)>)
    requires
        p <= s.len(),
    ensures
        parsed_ts(r) == spec_type_specifier(s@, p as int),
        r matches Some((_, e)) ==> p < e <= s.len(),
    decreases s.len() - p, 2int,
{
    let q0 = skip_ws_at(s, p);
    let (prec, q1) = match precision_qualifier(s, q0) {
        Some((pq, e)) => (Some(pq), e),
        None => (None, q0),
    };
    let q2 = skip_ws_at(s, q1);
    if let Some((t, e)) = basic_type(s, q2) {
        return Some((TypeSpecifier { precision: prec, actual_type: ActualType::Basic(t) }, e));
    }
    if let Some((st, e)) = struct_specifier(s, q2) {
        return Some((TypeSpecifier { precision: prec, actual_type: ActualType::Struct(st) }, e));
    }
    if let Some((w, e)) = valid_name(s, q2) {
        return Some((TypeSpecifier { precision: prec, actual_type: ActualType::Basic(BasicType::TypeName(w)) }, e));
    }
    None
}

/// Reads a struct specifier at `p` (see [`spec_struct_specifier`]).
pub fn struct_specifier(s: &Vec<char>, p: usize) -> (r: Option<(Struct, usize)>)
    requires
        p <= s.len(),
    ensures
        match r {
            Some((st, e)) => spec_struct_specifier(s@, p as int) == Some((view_struct(st), e as int)) && p < e <= s.len(),
            None => spec_struct_specifier(s@, p as int) is None,
        },
    decreases s.len() - p, 1int,
{
    let a = match kw_at(s, p, "struct") {
        Some(a) => a,
        None => {
            return None;
        },
    };
    let (n, b) = opt_ident_at(s, a);
    let c = match kw_at(s, b, "{") {
        Some(c) => c,
        None => {
            return None;
        },
    };
    let (ms, d) = members(s, c);
    match kw_at(s, d, "}") {
        Some(e) => Some((Struct { name: n, members: ms }, e)),
        None => None,
    }
}


pub proof fn lemma_view_members_append(a: Seq<StructMember>, b: Seq<StructMember>)
    ensures
        view_members(a + b) == view_members(a) + view_members(b),
    decreases b.len(),
{
    if b.len() == 0 {
        assert(a + b =~= a);
        assert(view_members(b) =~= Seq::<SStructMember>::empty());
        assert(view_members(a) + view_members(b) =~= view_members(a));
    } else {
        let b0 = b.drop_last();
        lemma_view_members_append(a, b0);
        assert((a + b).drop_last() =~= a + b0);
        assert((a + b).last() == b.last());
        assert(view_members(a) + view_members(b) =~= (view_members(a) + view_members(b0)).push(view_member(b.last())));
    }
}

fn members(s: &Vec<char>, p: usize) -> (r: (Vec<StructMember>, usize))
    requires
        p <= s.len(),
    ensures
        (view_members(r.0@), r.1 as int) == spec_members(s@, p as int, Seq::empty()),
        p <= r.1 <= s.len(),
    decreases s.len() - p, 4int,
{
    let mut acc: Vec<StructMember> = Vec::new();
    let mut q = p;
    assert(view_members(acc@) =~= Seq::<SStructMember>::empty());
    loop
        invariant
            p <= q <= s.len(),
            spec_members(s@, p as int, Seq::empty()) == spec_members(s@, q as int, view_members(acc@)),
        decreases s.len() - q,
    {
        match member_decl(s, q) {
            Some((ms, e)) => {
                if q < e && e <= s.len() {
                    let mut ms = ms;
                    proof {
                        lemma_view_members_append(acc@, ms@);
                    }
                    acc.append(&mut ms);
                    q = e;
                } else {
                    return (acc, q);
                }
            },
            None => {
                return (acc, q);
            },
        }
    }
}

/// Reads a struct member declaration at `p` (see [`spec_member_decl`]).
fn member_decl(s: &Vec<char>, p: usize) -> (r: Option<(Vec<StructMember>, usize)>)
    requires
        p <= s.len(),
    ensures
        match r {
            Some((ms, e)) => spec_member_decl(s@, p as int) == Some((view_members(ms@), e as int)) && e <= s.len(),
            None => spec_member_decl(s@, p as int) is None,
        },
    decreases s.len() - p, 3int,
{
    let (ts, a) = match type_specifier(s, p) {
        Some(x) => x,
        None => {
            return None;
        },
    };
    let a1 = skip_ws_at(s, a);
    let (n, b) = match valid_name(s, a1) {
        Some(x) => x,
        None => {
            return None;
        },
    };
    let (ar, c) = opt_array_at(s, b);
    let ghost tsv = ts@;
    let mut acc: Vec<StructMember> = Vec::new();
    let first = StructMember { ts: ts.copy(), name: n, array_spec: ar };
    proof {
        lemma_view_members_push(acc@, first);
    }
    acc.push(first);
    assert(view_members(acc@) =~= seq![SStructMember { ts: tsv, name: view_member(first).name, array_spec: view_member(first).array_spec }]);
    let mut q = c;
    assert(spec_member_decl(s@, p as int) == (match kw(s@, spec_member_names(s@, q as int, tsv, view_members(acc@)).1, ";"@) {
        Some(e) => Some((spec_member_names(s@, q as int, tsv, view_members(acc@)).0, e)),
        None => None,
    }));
    loop
        invariant
            p <= q <= s.len(),
            ts@ == tsv,
            spec_member_decl(s@, p as int) == (match kw(s@, spec_member_names(s@, q as int, tsv, view_members(acc@)).1, ";"@) {
                Some(e) => Some((spec_member_names(s@, q as int, tsv, view_members(acc@)).0, e)),
                None => None,
            }),
        ensures
            spec_member_names(s@, q as int, tsv, view_members(acc@)) == (view_members(acc@), q as int),
        decreases s.len() - q,
    {
        let a = match tag_end_at(s, q, ",") {
            Some(a) => a,
            None => {
                break;
            },
        };
        let (n2, b2) = match valid_name(s, a) {
            Some(x) => x,
            None => {
                break;
            },
        };
        let (ar2, c2) = opt_array_at(s, b2);
        if !(q < c2 && c2 <= s.len()) {
            break;
        }
        let m = StructMember { ts: ts.copy(), name: n2, array_spec: ar2 };
        proof {
            lemma_view_members_push(acc@, m);
        }
        acc.push(m);
        q = c2;
    }
    match kw_at(s, q, ";") {
        Some(e) => Some((acc, e)),
        None => None,
    }
}

pub open spec fn parsed_full(r: Option<(FullyTypeSpecifier, usize)>) -> Option<(SFullType, int)> {
    match r {
        Some((t, e)) => Some((t@, e as int)),
        None => None,
    }
}

/// Reads a fully specified type at `p` (see [`spec_full_type`]).
pub fn fully_type_specifier(s: &Vec<char>, p: usize) -> (r: Option<(FullyTypeSpecifier, usize)>)
    requires
        p <= s.len(),
    ensures
        parsed_full(r) == spec_full_type(s@, p as int),
        r matches Some((_, e)) ==> p < e <= s.len(),
{
    let (q, a) = match type_qualifier(s, p) {
        Some((t, e)) => (Some(t), e),
        None => (None, p),
    };
    match type_specifier(s, a) {
        Some((ts, b)) => Some((FullyTypeSpecifier { qualifer: q, type_spec: ts }, b)),
        None => None,
    }
}

pub open spec fn parsed_param(r: Option<(ParamDeclaration, usize)>) -> Option<(SParam, int)> {
    match r {
        Some((d, e)) => Some((d@, e as int)),
        None => None,
    }
}

/// Reads a parameter declaration at `p` (see [`spec_param_decl`]).
pub fn param_declaration(s: &Vec<char>, p: usize) -> (r: Option<(ParamDeclaration, usize)>)
    requires
        p <= s.len(),
    ensures
        parsed_param(r) == spec_param_decl(s@, p as int),
        r matches Some((_, e)) ==> p < e <= s.len(),
{
    let (tq, q1) = match type_qualifier(s, p) {
        Some((t, e)) => (Some(t), e),
        None => (None, p),
    };
    let (pq, q2) = match param_qualifier(s, q1) {
        Some((t, e)) => (Some(t), e),
        None => (None, q1),
    };
    match type_specifier(s, q2) {
        Some((ts, q3)) => {
            let (n, q4) = opt_ident_at(s, q3);
            let (ar, q5) = opt_array_at(s, q4);
            Some((ParamDeclaration { type_qualifer: tq, param_qualifier: pq, type_spec: ts, name: n, array_spec: ar }, q5))
        },
        None => None,
    }
}

fn params(s: &Vec<char>, p: usize) -> (r: (Vec<ParamDeclaration>, usize))
    requires
        p <= s.len(),
    ensures
        (view_params(r.0@), r.1 as int) == spec_params(s@, p as int),
        p <= r.1 <= s.len(),
{
    let mut acc: Vec<ParamDeclaration> = Vec::new();
    match param_declaration(s, p) {
        Some((d, e)) => {
            acc.push(d);
            assert(view_params(acc@) =~= seq![view_param(acc@[0])]);
            let mut q = e;
            loop
                invariant
                    p < q <= s.len(),
                    spec_params(s@, p as int) == spec_params_rest(s@, q as int, view_params(acc@)),
                ensures
                    p <= q <= s.len(),
                    spec_params(s@, p as int) == (view_params(acc@), q as int),
                decreases s.len() - q,
            {
                let a = match kw_at(s, q, ",") {
                    Some(a) => a,
                    None => {
                        break;
                    },
                };
                let (d2, e2) = match param_declaration(s, a) {
                    Some(x) => x,
                    None => {
                        break;
                    },
                };
                let ghost before = acc@;
                acc.push(d2);
                assert(view_params(acc@) =~= view_params(before).push(view_param(d2)));
                q = e2;
            }
            (acc, q)
        },
        None => {
            assert(view_params(acc@) =~= Seq::<SParam>::empty());
            (acc, p)
        },
    }
}

pub open spec fn parsed_proto(r: Option<(FunctionPrototype, usize)>) -> Option<(SProto, int)> {
    match r {
        Some((f, e)) => Some((f@, e as int)),
        None => None,
    }
}

/// Reads a function prototype at `p` (see [`spec_function_prototype`]).
pub fn function_prototype(s: &Vec<char>, p: usize) -> (r: Option<(FunctionPrototype, usize)>)
    requires
        p <= s.len(),
    ensures
        parsed_proto(r) == spec_function_prototype(s@, p as int),
        r matches Some((_, e)) ==> p < e <= s.len(),
{
    let (ft, a) = match fully_type_specifier(s, p) {
        Some(x) => x,
        None => {
            return None;
        },
    };
    let (n, b) = match valid_name(s, skip_ws_at(s, a)) {
        Some(x) => x,
        None => {
            return None;
        },
    };
    let c = match kw_at(s, b, "(") {
        Some(c) => c,
        None => {
            return None;
        },
    };
    let (ps, d) = params(s, c);
    match kw_at(s, d, ")") {
        Some(e) => Some((FunctionPrototype { ret_type: ft, name: n, params: ps }, e)),
        None => None,
    }
}

pub open spec fn parsed_single(r: Option<(SingleDeclaration, usize)>) -> Option<(SSingle, int)> {
    match r {
        Some((d, e)) => Some((d@, e as int)),
        None => None,
    }
}

/// Reads a single declaration at `p` (see [`spec_single_declaration`]).
pub fn single_declaration(s: &Vec<char>, p: usize) -> (r: Option<(SingleDeclaration, usize)>)
    requires
        p <= s.len(),
    ensures
        parsed_single(r) == spec_single_declaration(s@, p as int),
        r matches Some((_, e)) ==> p < e <= s.len(),
{
    if let Some(a) = kw_at(s, p, "invariant") {
        if let Some((n, b)) = valid_name(s, skip_ws_at(s, a)) {
            return Some((SingleDeclaration { type_spec: VariantTypeSpecifier::Invariant, name: Some(n), array_spec: None, equal_to: None }, b));
        }
    }
    if let Some((ft, a)) = fully_type_specifier(s, p) {
        if let Some((n, b)) = valid_name(s, skip_ws_at(s, a)) {
            if let Some(c) = kw_at(s, b, "=") {
                if let Some((e, d)) = assignment_expression(s, c) {
                    if c < d && d <= s.len() {
                        return Some((SingleDeclaration { type_spec: VariantTypeSpecifier::Normal(ft), name: Some(n), array_spec: None, equal_to: Some(e) }, d));
                    }
                }
            }
        }
    }
    match fully_type_specifier(s, p) {
        Some((ft, a)) => {
            let (n, b) = opt_ident_at(s, a);
            let (ar, c) = opt_array_at(s, b);
            Some((SingleDeclaration { type_spec: VariantTypeSpecifier::Normal(ft), name: n, array_spec: ar, equal_to: None }, c))
        },
        None => None,
    }
}

fn list_part(s: &Vec<char>, p: usize, ty: &VariantTypeSpecifier) -> (r: Option<(SingleDeclaration, usize)>)
    requires
        p <= s.len(),
    ensures
        parsed_single(r) == spec_list_part(s@, p as int, view_variant(*ty)),
        r matches Some((_, e)) ==> p < e <= s.len(),
{
    let a = match kw_at(s, p, ",") {
        Some(a) => a,
        None => {
            return None;
        },
    };
    let (n, b) = match valid_name(s, skip_ws_at(s, a)) {
        Some(x) => x,
        None => {
            return None;
        },
    };
    if let Some((x, c)) = array_specifier(s, b) {
        return Some((SingleDeclaration { type_spec: ty.copy(), name: Some(n), array_spec: Some(x), equal_to: None }, c));
    }
    if let Some(c) = kw_at(s, b, "=") {
        if let Some((e, d)) = assignment_expression(s, c) {
            if c < d && d <= s.len() {
                return Some((SingleDeclaration { type_spec: ty.copy(), name: Some(n), array_spec: None, equal_to: Some(e) }, d));
            }
        }
    }
    Some((SingleDeclaration { type_spec: ty.copy(), name: Some(n), array_spec: None, equal_to: None }, b))
}

pub open spec fn parsed_singles(r: Option<(Vec<SingleDeclaration>, usize)>) -> Option<(Seq<SSingle>, int)> {
    match r {
        Some((v, e)) => Some((view_singles(v@), e as int)),
        None => None,
    }
}

/// Reads a declaration list at `p` (see [`spec_declaration_list`]).
pub fn declaration_list(s: &Vec<char>, p: usize) -> (r: Option<(Vec<SingleDeclaration>, usize)>)
    requires
        p <= s.len(),
    ensures
        parsed_singles(r) == spec_declaration_list(s@, p as int),
        r matches Some((_, e)) ==> p < e <= s.len(),
{
    let (sd, a) = match single_declaration(s, p) {
        Some(x) => x,
        None => {
            return None;
        },
    };
    let ty = sd.type_spec.copy();
    let ghost tyv = view_variant(ty);
    let mut acc: Vec<SingleDeclaration> = Vec::new();
    acc.push(sd);
    assert(view_singles(acc@) =~= seq![view_single(acc@[0])]);
    let mut q = a;
    loop
        invariant
            p < q <= s.len(),
            tyv == view_variant(ty),
            spec_declaration_list(s@, p as int) == Some(spec_list_parts(s@, q as int, tyv, view_singles(acc@))),
        ensures
            p < q <= s.len(),
            spec_declaration_list(s@, p as int) == Some((view_singles(acc@), q as int)),
        decreases s.len() - q,
    {
        let (d, e) = match list_part(s, q, &ty) {
            Some(x) => x,
            None => {
                break;
            },
        };
        let ghost before = acc@;
        acc.push(d);
        assert(view_singles(acc@) =~= view_singles(before).push(view_single(d)));
        q = e;
    }
    Some((acc, q))
}

pub open spec fn parsed_decl(r: Option<(Declaration, usize)>) -> Option<(SDecl, int)> {
    match r {
        Some((d, e)) => Some((d@, e as int)),
        None => None,
    }
}

/// Reads a declaration, with its `;`, at `p` (see [`spec_declaration`]).
pub fn declaration(s: &Vec<char>, p: usize) -> (r: Option<(Declaration, usize)>)
    requires
        p <= s.len(),
    ensures
        parsed_decl(r) == spec_declaration(s@, p as int),
        r matches Some((_, e)) ==> p < e <= s.len(),
{
    let body: Option<(Declaration, usize)> = match function_prototype(s, p) {
        Some((f, e)) => Some((Declaration::FunctionPrototype(f), e)),
        None => match declaration_list(s, p) {
            Some((ds, e)) => Some((Declaration::DeclarationList(ds), e)),
            None => match kw_at(s, p, "precision") {
                Some(a) => match precision_qualifier(s, a) {
                    Some((pq, b)) => match basic_type(s, skip_ws_at(s, b)) {
                        Some((t, c)) => Some((Declaration::Precision(pq, t), c)),
                        None => None,
                    },
                    None => None,
                },
                None => None,
            },
        },
    };
    match body {
        Some((d, e)) => match kw_at(s, e, ";") {
            Some(f) => Some((d, f)),
            None => None,
        },
        None => None,
    }
}

// ---------------------------------------------------------------------------
// Laws of the qualifier readers
// ---------------------------------------------------------------------------

/// The keyword that writes a precision qualifier.
pub open spec fn precision_keyword(q: PrecisionQualifier) -> Seq<char> {
    match q {
        PrecisionQualifier::High => "highp"@,
        PrecisionQualifier::Medium => "mediump"@,
        PrecisionQualifier::Low => "lowp"@,
    }
}

/// The keyword that writes a parameter qualifier.
pub open spec fn param_keyword(q: ParamQualifier) -> Seq<char> {
    match q {
        ParamQualifier::In => "in"@,
        ParamQualifier::Out => "out"@,
        ParamQualifier::InOut => "inout"@,
    }
}

/// The (first) keyword that writes a storage qualifier; `invariant varying`
/// is written as `invariant` followed by `varying`.
pub open spec fn type_keyword(q: TypeQualifier) -> Seq<char> {
    match q {
        TypeQualifier::Const => "const"@,
        TypeQualifier::Attribute => "attribute"@,
        TypeQualifier::Varying => "varying"@,
        TypeQualifier::InvariantVarying => "invariant"@,
        TypeQualifier::Uniform => "uniform"@,
    }
}

/// The precision qualifier read is the one whose keyword is written: the
/// text read, after whitespace, is exactly that keyword.
pub proof fn law_precision_is_its_keyword(s: Seq<char>, p: int)
    ensures
        spec_precision_qualifier(s, p) matches Some((q, e)) ==> has_tag(s, skip_ws(s, p), precision_keyword(q))
            && e == skip_ws(s, p) + precision_keyword(q).len(),
{
}

/// The parameter qualifier read is the one whose keyword is written: the
/// text read, after whitespace, is exactly that keyword.
pub proof fn law_param_qualifier_is_its_keyword(s: Seq<char>, p: int)
    ensures
        spec_param_qualifier(s, p) matches Some((q, e)) ==> has_tag(s, skip_ws(s, p), param_keyword(q))
            && e == skip_ws(s, p) + param_keyword(q).len(),
{
}

/// The storage qualifier read is the one whose keyword is written: after
/// whitespace the text starts with that keyword, and the text read is the
/// keyword (followed directly by `varying` for `invariant varying`).
pub proof fn law_type_qualifier_is_its_keyword(s: Seq<char>, p: int)
    ensures
        spec_type_qualifier(s, p) matches Some((q, e)) ==> has_tag(s, skip_ws(s, p), type_keyword(q))
            && if q == TypeQualifier::InvariantVarying {
                has_tag(s, skip_ws(s, p) + type_keyword(q).len(), "varying"@)
                    && e == skip_ws(s, p) + type_keyword(q).len() + "varying"@.len()
            } else {
                e == skip_ws(s, p) + type_keyword(q).len()
            },
{
}

} // verus!
