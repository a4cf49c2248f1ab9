//! Translation units: the declarations and function definitions of a shader.
use vstd::prelude::*;
use crate::text::{append_str, chars_of, skip_ws, skip_ws_at, string_of};
use crate::glsl::expression::adv;
use crate::glsl::declaration::{
    Declaration, FunctionPrototype, SDecl, SProto, spec_declaration, spec_function_prototype, view_decl,
    view_proto, declaration, function_prototype,
};
use crate::glsl::statement::{SStmt, Statement, spec_statement, view_stmt, statement};

verus! {

/// A top-level item: a function definition or a declaration.
#[derive(Debug, PartialEq)]
pub enum ExternalDeclaration {
    FuntionDefinition(FunctionPrototype, Box<Statement>),
    Declaration(Declaration),
}

/// The function definitions and declarations of a shader, each in source
/// order.
#[derive(Debug, PartialEq)]
pub struct TranslationUnit {
    pub func_defs: Vec<(FunctionPrototype, Box<Statement>)>,
    pub decls: Vec<Declaration>,
}

/// Why a source is not a translation unit.
#[derive(Debug)]
pub struct ParserError(pub String);

pub ghost enum SExternal {
    FunctionDefinition(SProto, SStmt),
    Declaration(SDecl),
}

pub ghost struct SUnit {
    pub func_defs: Seq<(SProto, SStmt)>,
    pub decls: Seq<SDecl>,
}

pub open spec fn view_func_defs(v: Seq<(FunctionPrototype, Box<Statement>)>) -> Seq<(SProto, SStmt)> {
    v.map_values(|x: (FunctionPrototype, Box<Statement>)| (view_proto(x.0), view_stmt(*x.1)))
}

pub open spec fn view_decls(v: Seq<Declaration>) -> Seq<SDecl> {
    v.map_values(|d: Declaration| view_decl(d))
}

impl View for TranslationUnit {
    type V = SUnit;

    open spec fn view(&self) -> SUnit {
        SUnit { func_defs: view_func_defs(self.func_defs@), decls: view_decls(self.decls@) }
    }
}

impl Default for TranslationUnit {
    /// The empty unit.
    fn default() -> (r: TranslationUnit)
        ensures
            r.func_defs@.len() == 0,
            r.decls@.len() == 0,
    {
        TranslationUnit { func_defs: Vec::new(), decls: Vec::new() }
    }
}

/// `external_declaration`: a declaration; else a function prototype followed
/// by a statement.
pub open spec fn spec_external(s: Seq<char>, p: int) -> Option<(SExternal, int)> {
    match spec_declaration(s, p) {
        Some((d, a)) => Some((SExternal::Declaration(d), a)),
        None => match spec_function_prototype(s, p) {
            Some((f, a)) => match spec_statement(s, a) {
                Some((st, b)) => Some((SExternal::FunctionDefinition(f, st), b)),
                None => None,
            },
            None => None,
        },
    }
}

/// The unit with one more item.
pub open spec fn unit_add(u: SUnit, x: SExternal) -> SUnit {
    match x {
        SExternal::FunctionDefinition(f, st) => SUnit { func_defs: u.func_defs.push((f, st)), decls: u.decls },
        SExternal::Declaration(d) => SUnit { func_defs: u.func_defs, decls: u.decls.push(d) },
    }
}

/// The items read one after another from `p`, added to `u`.
pub open spec fn spec_unit_from(s: Seq<char>, p: int, u: SUnit) -> (SUnit, int)
    decreases s.len() - p,
{
    if !(0 <= p <= s.len()) {
        (u, p)
    } else {
        match spec_external(s, p) {
            Some((x, a)) => if adv(p, a, s.len()) {
                spec_unit_from(s, a, unit_add(u, x))
            } else {
                (u, p)
            },
            None => (u, p),
        }
    }
}

pub open spec fn empty_unit() -> SUnit {
    SUnit { func_defs: Seq::empty(), decls: Seq::empty() }
}

/// The translation unit of `s`: its items read one after another, when only
/// whitespace is left after them.
pub open spec fn spec_parse(s: Seq<char>) -> Option<SUnit> {
    let (u, q) = spec_unit_from(s, 0, empty_unit());
    if skip_ws(s, q) == s.len() {
        Some(u)
    } else {
        None
    }
}

/// The message when text is left after the items.
pub open spec fn parse_error_message() -> Seq<char> {
    "Parser Error: unexpected text after the last declaration"@
}

/// Reads a top-level item at `p` (see [`spec_external`]).
pub fn external_declaration(s: &Vec<char>, p: usize) -> (r: Option<(ExternalDeclaration, usize)>)
    requires
        p <= s.len(),
    ensures
        match r {
            Some((ExternalDeclaration::Declaration(d), e)) => spec_external(s@, p as int) == Some(
                (SExternal::Declaration(view_decl(d)), e as int),
            ) && e <= s.len(),
            Some((ExternalDeclaration::FuntionDefinition(f, st), e)) => spec_external(s@, p as int) == Some(
                (SExternal::FunctionDefinition(view_proto(f), view_stmt(*st)), e as int),
            ) && e <= s.len(),
            None => spec_external(s@, p as int) is None,
        },
{
    if let Some((d, a)) = declaration(s, p) {
        return Some((ExternalDeclaration::Declaration(d), a));
    }
    match function_prototype(s, p) {
        Some((f, a)) => match statement(s, a) {
            Some((st, b)) => Some((ExternalDeclaration::FuntionDefinition(f, st), b)),
            None => None,
        },
        None => None,
    }
}

/// Reads the translation unit of `s`: its items, then only whitespace.
pub fn parse(s: &str) -> (r: Result<TranslationUnit, ParserError>)
    ensures
        match spec_parse(s@) {
            Some(u) => r matches Ok(unit) && unit@ == u,
            None => r matches Err(e) && e.0@ == parse_error_message(),
        },
{
    let v = chars_of(s);
    let mut unit = TranslationUnit::default();
    let mut q: usize = 0;
    assert(unit@.func_defs =~= empty_unit().func_defs);
    assert(unit@.decls =~= empty_unit().decls);
    loop
        invariant
            q <= v.len(),
            v@ == s@,
            spec_unit_from(v@, 0, empty_unit()) == spec_unit_from(v@, q as int, unit@),
        ensures
            q <= v.len(),
            spec_unit_from(v@, 0, empty_unit()) == (unit@, q as int),
        decreases v.len() - q,
    {
        let (x, a) = match external_declaration(&v, q) {
            Some(x) => x,
            None => {
                break;
            },
        };
        if !(q < a) {
            break;
        }
        let ghost before = unit@;
        match x {
            ExternalDeclaration::Declaration(d) => {
                let ghost dv = view_decl(d);
                unit.decls.push(d);
                assert(unit@.decls =~= before.decls.push(dv));
                assert(unit@.func_defs =~= before.func_defs);
            },
            ExternalDeclaration::FuntionDefinition(f, st) => {
                let ghost fv = (view_proto(f), view_stmt(*st));
                unit.func_defs.push((f, st));
                assert(unit@.func_defs =~= before.func_defs.push(fv));
                assert(unit@.decls =~= before.decls);
            },
        }
        q = a;
    }
    if skip_ws_at(&v, q) == v.len() {
        Ok(unit)
    } else {
        let mut m: Vec<char> = Vec::new();
        append_str(&mut m, "Parser Error: unexpected text after the last declaration");
        assert(m@ =~= parse_error_message());
        Err(ParserError(string_of(&m)))
    }
}

} // verus!
