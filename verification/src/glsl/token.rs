//! Tokens of GLSL ES and the lexer rules that read them.
//!
//! Words are `[A-Za-z_][A-Za-z0-9_]*`. A word is a boolean constant (`true`,
//! `false`), a basic type keyword, or else an identifier; the grammar's
//! `identifier` rule refuses every reserved word. Numbers follow the GLSL ES
//! lexical grammar: decimal, octal (leading `0`) and hexadecimal (`0x`)
//! integers that fit in an `i64`, and floating constants, which are kept as
//! their spelling. Operators are read by [`crate::glsl::operator::operator`].
use vstd::prelude::*;
use crate::text::{skip_blank, skip_blank_at, has_tag, tag_at, string_of_range};
use crate::glsl::operator::{Operator, OPERATOR_COUNT, op_at, op_text, spec_operator, spec_operator_from, operator};

verus! {

/// A GLSL identifier.
pub type Identifier = String;

/// A literal constant. Floating constants keep their spelling.
#[derive(Debug, Clone, PartialEq)]
pub enum Constant {
    Integer(i64),
    Float(String),
    Bool(bool),
}

/// The mathematical model of a [`Constant`].
pub ghost enum SConstant {
    Integer(i64),
    Float(Seq<char>),
    Bool(bool),
}

impl View for Constant {
    type V = SConstant;

    open spec fn view(&self) -> SConstant {
        match self {
            Constant::Integer(i) => SConstant::Integer(*i),
            Constant::Float(f) => SConstant::Float(f@),
            Constant::Bool(b) => SConstant::Bool(*b),
        }
    }
}

impl Constant {
    /// A copy of the constant.
    pub fn copy(&self) -> (r: Constant)
        ensures
            r@ == self@,
    {
        match self {
            Constant::Integer(i) => Constant::Integer(*i),
            Constant::Float(f) => Constant::Float(f.clone()),
            Constant::Bool(b) => Constant::Bool(*b),
        }
    }
}

/// A basic (built-in) type, or a type named by an identifier.
#[derive(Debug, Clone, PartialEq)]
pub enum BasicType {
    Void,
    Bool,
    Int,
    Float,
    Vec2,
    Vec3,
    Vec4,
    BVec2,
    BVec3,
    BVec4,
    IVec2,
    IVec3,
    IVec4,
    Mat2,
    Mat3,
    Mat4,
    Sampler2D,
    SamplerCube,
    TypeName(Identifier),
}

/// The mathematical model of a [`BasicType`].
pub ghost enum SBasicType {
    Void,
    Bool,
    Int,
    Float,
    Vec2,
    Vec3,
    Vec4,
    BVec2,
    BVec3,
    BVec4,
    IVec2,
    IVec3,
    IVec4,
    Mat2,
    Mat3,
    Mat4,
    Sampler2D,
    SamplerCube,
    TypeName(Seq<char>),
}

impl View for BasicType {
    type V = SBasicType;

    open spec fn view(&self) -> SBasicType {
        match self {
            BasicType::Void => SBasicType::Void,
            BasicType::Bool => SBasicType::Bool,
            BasicType::Int => SBasicType::Int,
            BasicType::Float => SBasicType::Float,
            BasicType::Vec2 => SBasicType::Vec2,
            BasicType::Vec3 => SBasicType::Vec3,
            BasicType::Vec4 => SBasicType::Vec4,
            BasicType::BVec2 => SBasicType::BVec2,
            BasicType::BVec3 => SBasicType::BVec3,
            BasicType::BVec4 => SBasicType::BVec4,
            BasicType::IVec2 => SBasicType::IVec2,
            BasicType::IVec3 => SBasicType::IVec3,
            BasicType::IVec4 => SBasicType::IVec4,
            BasicType::Mat2 => SBasicType::Mat2,
            BasicType::Mat3 => SBasicType::Mat3,
            BasicType::Mat4 => SBasicType::Mat4,
            BasicType::Sampler2D => SBasicType::Sampler2D,
            BasicType::SamplerCube => SBasicType::SamplerCube,
            BasicType::TypeName(s) => SBasicType::TypeName(s@),
        }
    }
}

/// The spelling of a basic type: its keyword, or the name of a named type.
pub open spec fn basic_type_text(t: SBasicType) -> Seq<char> {
    match t {
        SBasicType::Void => "void"@,
        SBasicType::Bool => "bool"@,
        SBasicType::Int => "int"@,
        SBasicType::Float => "float"@,
        SBasicType::Vec2 => "vec2"@,
        SBasicType::Vec3 => "vec3"@,
        SBasicType::Vec4 => "vec4"@,
        SBasicType::BVec2 => "bvec2"@,
        SBasicType::BVec3 => "bvec3"@,
        SBasicType::BVec4 => "bvec4"@,
        SBasicType::IVec2 => "ivec2"@,
        SBasicType::IVec3 => "ivec3"@,
        SBasicType::IVec4 => "ivec4"@,
        SBasicType::Mat2 => "mat2"@,
        SBasicType::Mat3 => "mat3"@,
        SBasicType::Mat4 => "mat4"@,
        SBasicType::Sampler2D => "sampler2D"@,
        SBasicType::SamplerCube => "samplerCube"@,
        SBasicType::TypeName(s) => s,
    }
}

/// The basic type whose keyword is `w`, if any.
pub open spec fn keyword_type(w: Seq<char>) -> Option<SBasicType> {
    if w == "void"@ {
        Some(SBasicType::Void)
    } else if w == "bool"@ {
        Some(SBasicType::Bool)
    } else if w == "int"@ {
        Some(SBasicType::Int)
    } else if w == "float"@ {
        Some(SBasicType::Float)
    } else if w == "vec2"@ {
        Some(SBasicType::Vec2)
    } else if w == "vec3"@ {
        Some(SBasicType::Vec3)
    } else if w == "vec4"@ {
        Some(SBasicType::Vec4)
    } else if w == "bvec2"@ {
        Some(SBasicType::BVec2)
    } else if w == "bvec3"@ {
        Some(SBasicType::BVec3)
    } else if w == "bvec4"@ {
        Some(SBasicType::BVec4)
    } else if w == "ivec2"@ {
        Some(SBasicType::IVec2)
    } else if w == "ivec3"@ {
        Some(SBasicType::IVec3)
    } else if w == "ivec4"@ {
        Some(SBasicType::IVec4)
    } else if w == "mat2"@ {
        Some(SBasicType::Mat2)
    } else if w == "mat3"@ {
        Some(SBasicType::Mat3)
    } else if w == "mat4"@ {
        Some(SBasicType::Mat4)
    } else if w == "sampler2D"@ {
        Some(SBasicType::Sampler2D)
    } else if w == "samplerCube"@ {
        Some(SBasicType::SamplerCube)
    } else {
        None
    }
}

/// Reserved words other than the basic type keywords.
pub open spec fn is_other_keyword(w: Seq<char>) -> bool {
    w == "true"@
        || w == "false"@
        || w == "attribute"@
        || w == "const"@
        || w == "uniform"@
        || w == "varying"@
        || w == "break"@
        || w == "continue"@
        || w == "do"@
        || w == "for"@
        || w == "while"@
        || w == "if"@
        || w == "else"@
        || w == "in"@
        || w == "out"@
        || w == "inout"@
        || w == "lowp"@
        || w == "mediump"@
        || w == "highp"@
        || w == "precision"@
        || w == "invariant"@
        || w == "discard"@
        || w == "return"@
        || w == "struct"@
}

/// Words that cannot be identifiers.
pub open spec fn is_reserved(w: Seq<char>) -> bool {
    keyword_type(w) is Some || is_other_keyword(w)
}

impl BasicType {
    /// A copy of the type.
    pub fn copy(&self) -> (r: BasicType)
        ensures
            r@ == self@,
    {
        match self {
            BasicType::Void => BasicType::Void,
            BasicType::Bool => BasicType::Bool,
            BasicType::Int => BasicType::Int,
            BasicType::Float => BasicType::Float,
            BasicType::Vec2 => BasicType::Vec2,
            BasicType::Vec3 => BasicType::Vec3,
            BasicType::Vec4 => BasicType::Vec4,
            BasicType::BVec2 => BasicType::BVec2,
            BasicType::BVec3 => BasicType::BVec3,
            BasicType::BVec4 => BasicType::BVec4,
            BasicType::IVec2 => BasicType::IVec2,
            BasicType::IVec3 => BasicType::IVec3,
            BasicType::IVec4 => BasicType::IVec4,
            BasicType::Mat2 => BasicType::Mat2,
            BasicType::Mat3 => BasicType::Mat3,
            BasicType::Mat4 => BasicType::Mat4,
            BasicType::Sampler2D => BasicType::Sampler2D,
            BasicType::SamplerCube => BasicType::SamplerCube,
            BasicType::TypeName(s) => BasicType::TypeName(s.clone()),
        }
    }

    /// The spelling of the type (its keyword, or its name).
    pub fn to_string(&self) -> (r: String)
        ensures
            r@ == basic_type_text(self@),
    {
        match self {
            BasicType::Void => String::from_str("void"),
            BasicType::Bool => String::from_str("bool"),
            BasicType::Int => String::from_str("int"),
            BasicType::Float => String::from_str("float"),
            BasicType::Vec2 => String::from_str("vec2"),
            BasicType::Vec3 => String::from_str("vec3"),
            BasicType::Vec4 => String::from_str("vec4"),
            BasicType::BVec2 => String::from_str("bvec2"),
            BasicType::BVec3 => String::from_str("bvec3"),
            BasicType::BVec4 => String::from_str("bvec4"),
            BasicType::IVec2 => String::from_str("ivec2"),
            BasicType::IVec3 => String::from_str("ivec3"),
            BasicType::IVec4 => String::from_str("ivec4"),
            BasicType::Mat2 => String::from_str("mat2"),
            BasicType::Mat3 => String::from_str("mat3"),
            BasicType::Mat4 => String::from_str("mat4"),
            BasicType::Sampler2D => String::from_str("sampler2D"),
            BasicType::SamplerCube => String::from_str("samplerCube"),
            BasicType::TypeName(s) => s.clone(),
        }
    }
}

/// `s[a..b]` spells the literal `t`.
fn word_is(s: &Vec<char>, a: usize, b: usize, t: &str) -> (r: bool)
    requires
        a <= b <= s.len(),
    ensures
        r == (s@.subrange(a as int, b as int) == t@),
{
    let n = t.unicode_len();
    if b - a != n {
        assert(s@.subrange(a as int, b as int).len() != t@.len());
        return false;
    }
    let r = tag_at(s, a, t);
    r
}

/// The basic type whose keyword is `s[a..b]`, if any.
fn keyword_type_at(s: &Vec<char>, a: usize, b: usize) -> (r: Option<BasicType>)
    requires
        a <= b <= s.len(),
    ensures
        match r {
            Some(t) => keyword_type(s@.subrange(a as int, b as int)) == Some(t@),
            None => keyword_type(s@.subrange(a as int, b as int)) is None,
        },
{
    if word_is(s, a, b, "void") {
        Some(BasicType::Void)
    } else if word_is(s, a, b, "bool") {
        Some(BasicType::Bool)
    } else if word_is(s, a, b, "int") {
        Some(BasicType::Int)
    } else if word_is(s, a, b, "float") {
        Some(BasicType::Float)
    } else if word_is(s, a, b, "vec2") {
        Some(BasicType::Vec2)
    } else if word_is(s, a, b, "vec3") {
        Some(BasicType::Vec3)
    } else if word_is(s, a, b, "vec4") {
        Some(BasicType::Vec4)
    } else if word_is(s, a, b, "bvec2") {
        Some(BasicType::BVec2)
    } else if word_is(s, a, b, "bvec3") {
        Some(BasicType::BVec3)
    } else if word_is(s, a, b, "bvec4") {
        Some(BasicType::BVec4)
    } else if word_is(s, a, b, "ivec2") {
        Some(BasicType::IVec2)
    } else if word_is(s, a, b, "ivec3") {
        Some(BasicType::IVec3)
    } else if word_is(s, a, b, "ivec4") {
        Some(BasicType::IVec4)
    } else if word_is(s, a, b, "mat2") {
        Some(BasicType::Mat2)
    } else if word_is(s, a, b, "mat3") {
        Some(BasicType::Mat3)
    } else if word_is(s, a, b, "mat4") {
        Some(BasicType::Mat4)
    } else if word_is(s, a, b, "sampler2D") {
        Some(BasicType::Sampler2D)
    } else if word_is(s, a, b, "samplerCube") {
        Some(BasicType::SamplerCube)
    } else {
        None
    }
}

/// Whether `s[a..b]` is a reserved word other than a basic type keyword.
fn is_other_keyword_at(s: &Vec<char>, a: usize, b: usize) -> (r: bool)
    requires
        a <= b <= s.len(),
    ensures
        r == is_other_keyword(s@.subrange(a as int, b as int)),
{
    word_is(s, a, b, "true")
        || word_is(s, a, b, "false")
        || word_is(s, a, b, "attribute")
        || word_is(s, a, b, "const")
        || word_is(s, a, b, "uniform")
        || word_is(s, a, b, "varying")
        || word_is(s, a, b, "break")
        || word_is(s, a, b, "continue")
        || word_is(s, a, b, "do")
        || word_is(s, a, b, "for")
        || word_is(s, a, b, "while")
        || word_is(s, a, b, "if")
        || word_is(s, a, b, "else")
        || word_is(s, a, b, "in")
        || word_is(s, a, b, "out")
        || word_is(s, a, b, "inout")
        || word_is(s, a, b, "lowp")
        || word_is(s, a, b, "mediump")
        || word_is(s, a, b, "highp")
        || word_is(s, a, b, "precision")
        || word_is(s, a, b, "invariant")
        || word_is(s, a, b, "discard")
        || word_is(s, a, b, "return")
        || word_is(s, a, b, "struct")
}
/// A token of a source line, with its spelling.
#[derive(Debug, Clone, PartialEq)]
pub enum Token {
    Identifier(Identifier, String),
    Operator(Operator, String),
    Constant(Constant, String),
    BasicType(BasicType, String),
}

/// The mathematical model of a [`Token`].
pub ghost enum SToken {
    Identifier(Seq<char>, Seq<char>),
    Operator(Operator, Seq<char>),
    Constant(SConstant, Seq<char>),
    BasicType(SBasicType, Seq<char>),
}

impl View for Token {
    type V = SToken;

    open spec fn view(&self) -> SToken {
        match self {
            Token::Identifier(a, b) => SToken::Identifier(a@, b@),
            Token::Operator(o, b) => SToken::Operator(*o, b@),
            Token::Constant(c, b) => SToken::Constant(c@, b@),
            Token::BasicType(t, b) => SToken::BasicType(t@, b@),
        }
    }
}

/// The spelling of a token.
pub open spec fn token_text(t: SToken) -> Seq<char> {
    match t {
        SToken::Identifier(_, s) => s,
        SToken::Operator(_, s) => s,
        SToken::Constant(_, s) => s,
        SToken::BasicType(_, s) => s,
    }
}

impl Token {
    /// A copy of the token.
    pub fn copy(&self) -> (r: Token)
        ensures
            r@ == self@,
    {
        match self {
            Token::Identifier(a, b) => Token::Identifier(a.clone(), b.clone()),
            Token::Operator(o, b) => Token::Operator(*o, b.clone()),
            Token::Constant(c, b) => Token::Constant(c.copy(), b.clone()),
            Token::BasicType(t, b) => Token::BasicType(t.copy(), b.clone()),
        }
    }

    /// The spelling of the token.
    pub fn text(&self) -> (r: &String)
        ensures
            r@ == token_text(self@),
    {
        match self {
            Token::Identifier(_, s) => s,
            Token::Operator(_, s) => s,
            Token::Constant(_, s) => s,
            Token::BasicType(_, s) => s,
        }
    }

    /// Whether two tokens are equal.
    pub fn same(&self, other: &Token) -> (r: bool)
        ensures
            r == (self@ == other@),
    {
        match (self, other) {
            (Token::Identifier(a1, b1), Token::Identifier(a2, b2)) => string_eq(a1, a2) && string_eq(b1, b2),
            (Token::Operator(o1, b1), Token::Operator(o2, b2)) => *o1 == *o2 && string_eq(b1, b2),
            (Token::Constant(c1, b1), Token::Constant(c2, b2)) => c1.same(c2) && string_eq(b1, b2),
            (Token::BasicType(t1, b1), Token::BasicType(t2, b2)) => t1.same(t2) && string_eq(b1, b2),
            _ => false,
        }
    }
}

/// Whether two strings hold the same characters.
pub fn string_eq(a: &String, b: &String) -> (r: bool)
    ensures
        r == (a@ == b@),
{
    let r = *a == *b;
    r
}

impl Constant {
    /// Whether two constants are equal.
    pub fn same(&self, other: &Constant) -> (r: bool)
        ensures
            r == (self@ == other@),
    {
        match (self, other) {
            (Constant::Integer(a), Constant::Integer(b)) => *a == *b,
            (Constant::Float(a), Constant::Float(b)) => string_eq(a, b),
            (Constant::Bool(a), Constant::Bool(b)) => *a == *b,
            _ => false,
        }
    }
}

/// The position of a basic type among the keyword types; named types come last.
pub open spec fn basic_type_index(t: SBasicType) -> int {
    match t {
        SBasicType::Void => 0,
        SBasicType::Bool => 1,
        SBasicType::Int => 2,
        SBasicType::Float => 3,
        SBasicType::Vec2 => 4,
        SBasicType::Vec3 => 5,
        SBasicType::Vec4 => 6,
        SBasicType::BVec2 => 7,
        SBasicType::BVec3 => 8,
        SBasicType::BVec4 => 9,
        SBasicType::IVec2 => 10,
        SBasicType::IVec3 => 11,
        SBasicType::IVec4 => 12,
        SBasicType::Mat2 => 13,
        SBasicType::Mat3 => 14,
        SBasicType::Mat4 => 15,
        SBasicType::Sampler2D => 16,
        SBasicType::SamplerCube => 17,
        SBasicType::TypeName(_) => 18,
    }
}

impl BasicType {
    /// The position of the type among the keyword types; named types come last.
    pub fn index(&self) -> (r: u8)
        ensures
            r == basic_type_index(self@),
    {
        match self {
            BasicType::Void => 0,
            BasicType::Bool => 1,
            BasicType::Int => 2,
            BasicType::Float => 3,
            BasicType::Vec2 => 4,
            BasicType::Vec3 => 5,
            BasicType::Vec4 => 6,
            BasicType::BVec2 => 7,
            BasicType::BVec3 => 8,
            BasicType::BVec4 => 9,
            BasicType::IVec2 => 10,
            BasicType::IVec3 => 11,
            BasicType::IVec4 => 12,
            BasicType::Mat2 => 13,
            BasicType::Mat3 => 14,
            BasicType::Mat4 => 15,
            BasicType::Sampler2D => 16,
            BasicType::SamplerCube => 17,
            BasicType::TypeName(_) => 18,
        }
    }

    /// Whether two types are equal.
    pub fn same(&self, other: &BasicType) -> (r: bool)
        ensures
            r == (self@ == other@),
    {
        match (self, other) {
            (BasicType::TypeName(a), BasicType::TypeName(b)) => string_eq(a, b),
            (BasicType::TypeName(_), _) => false,
            (_, BasicType::TypeName(_)) => false,
            _ => self.index() == other.index(),
        }
    }
}

// ---------------------------------------------------------------------------
// Character classes and words
// ---------------------------------------------------------------------------

pub open spec fn is_alpha(c: char) -> bool {
    ('a' <= c && c <= 'z') || ('A' <= c && c <= 'Z')
}

pub open spec fn is_digit(c: char) -> bool {
    '0' <= c && c <= '9'
}

/// A character that may start a word.
pub open spec fn is_word_start(c: char) -> bool {
    is_alpha(c) || c == '_'
}

/// A character that may continue a word.
pub open spec fn is_word_char(c: char) -> bool {
    is_alpha(c) || is_digit(c) || c == '_'
}

/// End of the run of word characters starting at `p`.
pub open spec fn word_end(s: Seq<char>, p: int) -> int
    decreases s.len() - p,
{
    if 0 <= p < s.len() && is_word_char(s[p]) {
        word_end(s, p + 1)
    } else {
        p
    }
}

pub proof fn lemma_word_end(s: Seq<char>, p: int)
    requires
        0 <= p <= s.len(),
    ensures
        p <= word_end(s, p) <= s.len(),
    decreases s.len() - p,
{
    if p < s.len() && is_word_char(s[p]) {
        lemma_word_end(s, p + 1);
    }
}

fn is_word_start_char(c: char) -> (r: bool)
    ensures
        r == is_word_start(c),
{
    ('a' <= c && c <= 'z') || ('A' <= c && c <= 'Z') || c == '_'
}

fn is_word_char_char(c: char) -> (r: bool)
    ensures
        r == is_word_char(c),
{
    ('a' <= c && c <= 'z') || ('A' <= c && c <= 'Z') || ('0' <= c && c <= '9') || c == '_'
}

fn word_end_at(s: &Vec<char>, p: usize) -> (r: usize)
    requires
        p <= s.len(),
    ensures
        r == word_end(s@, p as int),
        p <= r <= s.len(),
{
    let mut i = p;
    while i < s.len() && is_word_char_char(s[i])
        invariant
            p <= i <= s.len(),
            word_end(s@, i as int) == word_end(s@, p as int),
        decreases s.len() - i,
    {
        i = i + 1;
    }
    i
}

/// The word at `p` (if a word starts there) and its end.
pub open spec fn word_at(s: Seq<char>, p: int) -> Option<(Seq<char>, int)> {
    if 0 <= p < s.len() && is_word_start(s[p]) {
        Some((s.subrange(p, word_end(s, p)), word_end(s, p)))
    } else {
        None
    }
}

// ---------------------------------------------------------------------------
// Numbers
// ---------------------------------------------------------------------------

pub open spec fn is_digit_in(c: char, base: int) -> bool {
    if base == 16 {
        is_digit(c) || ('a' <= c && c <= 'f') || ('A' <= c && c <= 'F')
    } else if base == 8 {
        '0' <= c && c <= '7'
    } else {
        is_digit(c)
    }
}

pub open spec fn digit_value(c: char) -> int {
    if is_digit(c) {
        c as int - '0' as int
    } else if 'a' <= c && c <= 'f' {
        c as int - 'a' as int + 10
    } else {
        c as int - 'A' as int + 10
    }
}

/// End of the run of digits (in `base`) starting at `p`.
pub open spec fn digits_end(s: Seq<char>, p: int, base: int) -> int
    decreases s.len() - p,
{
    if 0 <= p < s.len() && is_digit_in(s[p], base) {
        digits_end(s, p + 1, base)
    } else {
        p
    }
}

pub proof fn lemma_digits_end(s: Seq<char>, p: int, base: int)
    requires
        0 <= p <= s.len(),
    ensures
        p <= digits_end(s, p, base) <= s.len(),
        forall|i: int| p <= i < digits_end(s, p, base) ==> is_digit_in(#[trigger] s[i], base),
    decreases s.len() - p,
{
    if p < s.len() && is_digit_in(s[p], base) {
        lemma_digits_end(s, p + 1, base);
    }
}

/// The value of the digits `s[a..b]` in `base`.
pub open spec fn digits_value(s: Seq<char>, a: int, b: int, base: int) -> int
    decreases b - a,
{
    if b <= a {
        0
    } else {
        digits_value(s, a, b - 1, base) * base + digit_value(s[b - 1])
    }
}

/// End of an exponent part at `q`, or `q` itself when none is there.
pub open spec fn exponent_end(s: Seq<char>, q: int) -> int {
    if 0 <= q < s.len() && (s[q] == 'e' || s[q] == 'E') {
        let r = if q + 1 < s.len() && (s[q + 1] == '+' || s[q + 1] == '-') {
            q + 2
        } else {
            q + 1
        };
        if digits_end(s, r, 10) > r {
            digits_end(s, r, 10)
        } else {
            q
        }
    } else {
        q
    }
}

/// End of a floating constant starting at `p`, if one starts there.
pub open spec fn float_end(s: Seq<char>, p: int) -> Option<int> {
    if 0 <= p < s.len() && is_digit(s[p]) {
        let d1 = digits_end(s, p, 10);
        if d1 < s.len() && s[d1] == '.' {
            Some(exponent_end(s, digits_end(s, d1 + 1, 10)))
        } else if exponent_end(s, d1) > d1 {
            Some(exponent_end(s, d1))
        } else {
            None
        }
    } else if 0 <= p && p + 1 < s.len() && s[p] == '.' && is_digit(s[p + 1]) {
        Some(exponent_end(s, digits_end(s, p + 1, 10)))
    } else {
        None
    }
}

/// Base, first digit and end of an integer constant starting at `p`.
pub open spec fn integer_digits(s: Seq<char>, p: int) -> (int, int, int) {
    if p + 2 < s.len() && s[p] == '0' && (s[p + 1] == 'x' || s[p + 1] == 'X')
        && is_digit_in(s[p + 2], 16) {
        (16, p + 2, digits_end(s, p + 2, 16))
    } else if s[p] == '0' {
        (8, p + 1, digits_end(s, p + 1, 8))
    } else {
        (10, p, digits_end(s, p, 10))
    }
}

/// The integer constant starting at `p` and its end; none when its value does not fit an `i64`.
pub open spec fn spec_integer(s: Seq<char>, p: int) -> Option<(int, int)> {
    if 0 <= p < s.len() && is_digit(s[p]) {
        let (base, a, b) = integer_digits(s, p);
        if digits_value(s, a, b, base) <= i64::MAX {
            Some((digits_value(s, a, b, base), b))
        } else {
            None
        }
    } else {
        None
    }
}

/// The numeric constant starting at `p`: a floating constant if one starts there, else an integer.
pub open spec fn spec_number(s: Seq<char>, p: int) -> Option<(SConstant, int)> {
    match float_end(s, p) {
        Some(e) => Some((SConstant::Float(s.subrange(p, e)), e)),
        None => match spec_integer(s, p) {
            Some((v, e)) => Some((SConstant::Integer(v as i64), e)),
            None => None,
        },
    }
}

/// The constant at `p` (no blanks skipped): `true`, `false`, or a number.
pub open spec fn spec_constant(s: Seq<char>, p: int) -> Option<(SConstant, int)> {
    match word_at(s, p) {
        Some((w, e)) => if w == "true"@ {
            Some((SConstant::Bool(true), e))
        } else if w == "false"@ {
            Some((SConstant::Bool(false), e))
        } else {
            None
        },
        None => spec_number(s, p),
    }
}

/// The identifier at `p` (no blanks skipped): a word that is not reserved.
pub open spec fn spec_identifier(s: Seq<char>, p: int) -> Option<(Seq<char>, int)> {
    match word_at(s, p) {
        Some((w, e)) => if is_reserved(w) {
            None
        } else {
            Some((w, e))
        },
        None => None,
    }
}

/// The basic type keyword at `p` (no blanks skipped).
pub open spec fn spec_basic_type(s: Seq<char>, p: int) -> Option<(SBasicType, int)> {
    match word_at(s, p) {
        Some((w, e)) => match keyword_type(w) {
            Some(t) => Some((t, e)),
            None => None,
        },
        None => None,
    }
}

/// One token at `p`, without skipping blanks.
pub open spec fn spec_lex(s: Seq<char>, p: int) -> Option<(SToken, int)> {
    match word_at(s, p) {
        Some((w, e)) => if w == "true"@ {
            Some((SToken::Constant(SConstant::Bool(true), w), e))
        } else if w == "false"@ {
            Some((SToken::Constant(SConstant::Bool(false), w), e))
        } else {
            match keyword_type(w) {
                Some(t) => Some((SToken::BasicType(t, w), e)),
                None => Some((SToken::Identifier(w, w), e)),
            }
        },
        None => match spec_number(s, p) {
            Some((c, e)) => Some((SToken::Constant(c, s.subrange(p, e)), e)),
            None => match spec_operator(s, p) {
                Some((op, e)) => Some((SToken::Operator(op, op_text(op)), e)),
                None => None,
            },
        },
    }
}

/// One token: blanks are skipped before and after it.
pub open spec fn spec_token(s: Seq<char>, p: int) -> Option<(SToken, int)> {
    match spec_lex(s, skip_blank(s, p)) {
        Some((t, e)) => Some((t, skip_blank(s, e))),
        None => None,
    }
}

// ---------------------------------------------------------------------------
// Executable lexer rules
// ---------------------------------------------------------------------------

fn is_digit_char(c: char) -> (r: bool)
    ensures
        r == is_digit(c),
{
    '0' <= c && c <= '9'
}

fn is_digit_in_char(c: char, base: u32) -> (r: bool)
    ensures
        r == is_digit_in(c, base as int),
{
    if base == 16 {
        ('0' <= c && c <= '9') || ('a' <= c && c <= 'f') || ('A' <= c && c <= 'F')
    } else if base == 8 {
        '0' <= c && c <= '7'
    } else {
        '0' <= c && c <= '9'
    }
}

fn digit_value_of(c: char, base: u32) -> (r: i64)
    requires
        is_digit_in(c, base as int),
    ensures
        r == digit_value(c),
        0 <= r < 16,
{
    if '0' <= c && c <= '9' {
        (c as u32 - '0' as u32) as i64
    } else if 'a' <= c && c <= 'f' {
        (c as u32 - 'a' as u32 + 10) as i64
    } else {
        (c as u32 - 'A' as u32 + 10) as i64
    }
}

fn digits_end_at(s: &Vec<char>, p: usize, base: u32) -> (r: usize)
    requires
        p <= s.len(),
    ensures
        r == digits_end(s@, p as int, base as int),
        p <= r <= s.len(),
{
    let mut i = p;
    while i < s.len() && is_digit_in_char(s[i], base)
        invariant
            p <= i <= s.len(),
            digits_end(s@, i as int, base as int) == digits_end(s@, p as int, base as int),
        decreases s.len() - i,
    {
        i = i + 1;
    }
    i
}

proof fn lemma_digits_value_grows(s: Seq<char>, a: int, b: int, base: int)
    requires
        a <= b,
        base >= 1,
        forall|i: int| a <= i < b ==> digit_value(#[trigger] s[i]) >= 0,
    ensures
        forall|j: int| a <= j <= b ==> 0 <= #[trigger] digits_value(s, a, j, base) <= digits_value(s, a, b, base),
    decreases b - a,
{
    if b > a {
        lemma_digits_value_grows(s, a, b - 1, base);
        assert(digits_value(s, a, b - 1, base) >= 0);
        let v = digits_value(s, a, b - 1, base);
        assert(v * base >= v) by (nonlinear_arith)
            requires
                v >= 0,
                base >= 1,
        ;
    }
}

fn exponent_end_at(s: &Vec<char>, q: usize) -> (r: usize)
    requires
        q <= s.len(),
    ensures
        r == exponent_end(s@, q as int),
        q <= r <= s.len(),
{
    if q < s.len() && (s[q] == 'e' || s[q] == 'E') {
        let r = if q + 1 < s.len() && (s[q + 1] == '+' || s[q + 1] == '-') {
            q + 2
        } else {
            q + 1
        };
        let d = digits_end_at(s, r, 10);
        if d > r {
            d
        } else {
            q
        }
    } else {
        q
    }
}

fn float_end_at(s: &Vec<char>, p: usize) -> (r: Option<usize>)
    requires
        p <= s.len(),
    ensures
        match r {
            Some(e) => float_end(s@, p as int) == Some(e as int) && p < e <= s.len(),
            None => float_end(s@, p as int) is None,
        },
{
    if p < s.len() && is_digit_char(s[p]) {
        let d1 = digits_end_at(s, p, 10);
        proof {
            lemma_digits_end(s@, p as int, 10);
        }
        if d1 < s.len() && s[d1] == '.' {
            let d2 = digits_end_at(s, d1 + 1, 10);
            Some(exponent_end_at(s, d2))
        } else {
            let e = exponent_end_at(s, d1);
            if e > d1 {
                Some(e)
            } else {
                None
            }
        }
    } else if p < s.len() && s.len() - p > 1 && s[p] == '.' && is_digit_char(s[p + 1]) {
        let d2 = digits_end_at(s, p + 1, 10);
        Some(exponent_end_at(s, d2))
    } else {
        None
    }
}

fn integer_at(s: &Vec<char>, p: usize) -> (r: Option<(i64, usize)>)
    requires
        p <= s.len(),
    ensures
        match r {
            Some((v, e)) => spec_integer(s@, p as int) == Some((v as int, e as int)) && p < e <= s.len(),
            None => spec_integer(s@, p as int) is None,
        },
{
    if !(p < s.len() && is_digit_char(s[p])) {
        return None;
    }
    let ghost g = integer_digits(s@, p as int);
    let (base, a): (u32, usize) = if s.len() - p > 2 && s[p] == '0' && (s[p + 1] == 'x' || s[p
        + 1] == 'X') && is_digit_in_char(s[p + 2], 16) {
        (16, p + 2)
    } else if s[p] == '0' {
        (8, p + 1)
    } else {
        (10, p)
    };
    let b = digits_end_at(s, a, base);
    assert(g == (base as int, a as int, b as int));
    proof {
        lemma_digits_end(s@, a as int, base as int);
        assert forall|i: int| a <= i < b implies digit_value(#[trigger] s@[i]) >= 0 by {
            assert(is_digit_in(s@[i], base as int));
        }
        lemma_digits_value_grows(s@, a as int, b as int, base as int);
    }
    let mut v: i64 = 0;
    let mut i = a;
    while i < b
        invariant
            a <= i <= b <= s.len(),
            v == digits_value(s@, a as int, i as int, base as int),
            base == 8 || base == 10 || base == 16,
            p < s.len(),
            is_digit(s@[p as int]),
            integer_digits(s@, p as int) == (base as int, a as int, b as int),
            forall|k: int| a <= k < b ==> is_digit_in(#[trigger] s@[k], base as int),
            forall|j: int| a <= j <= b ==> 0 <= #[trigger] digits_value(s@, a as int, j, base as int) <= digits_value(s@, a as int, b as int, base as int),
        decreases b - i,
    {
        let d = digit_value_of(s[i], base);
        let m = v.checked_mul(base as i64);
        match m {
            None => {
                proof {
                    lemma_mul_grow(v as int, base as int, d as int);
                    assert(digits_value(s@, a as int, i + 1, base as int) == v * base + d);
                    assert(digits_value(s@, a as int, i + 1, base as int) <= digits_value(s@, a as int, b as int, base as int));
                    assert(integer_digits(s@, p as int) == (base as int, a as int, b as int));
                }
                return None;
            },
            Some(m) => {
                match m.checked_add(d) {
                    None => {
                        proof {
                            assert(digits_value(s@, a as int, i + 1, base as int) == v * base + d);
                            assert(digits_value(s@, a as int, i + 1, base as int) <= digits_value(s@, a as int, b as int, base as int));
                            assert(integer_digits(s@, p as int) == (base as int, a as int, b as int));
                        }
                        return None;
                    },
                    Some(w) => {
                        v = w;
                    },
                }
            },
        }
        i = i + 1;
    }
    proof {
        if base == 10 {
            lemma_digits_end(s@, p + 1, 10);
        }
    }
    Some((v, b))
}

proof fn lemma_mul_grow(v: int, base: int, d: int)
    requires
        v >= 0,
        base >= 1,
        d >= 0,
        v * base > i64::MAX,
    ensures
        v * base + d > i64::MAX,
{
}

/// Reads the word at `p` if one starts there.
fn word_at_exec(s: &Vec<char>, p: usize) -> (r: Option<usize>)
    requires
        p <= s.len(),
    ensures
        match r {
            Some(e) => word_at(s@, p as int) == Some((s@.subrange(p as int, e as int), e as int)) && p < e <= s.len(),
            None => word_at(s@, p as int) is None,
        },
{
    if p < s.len() && is_word_start_char(s[p]) {
        let e = word_end_at(s, p);
        proof {
            lemma_word_end(s@, p + 1);
        }
        Some(e)
    } else {
        None
    }
}

fn number_at(s: &Vec<char>, p: usize) -> (r: Option<(Constant, usize)>)
    requires
        p <= s.len(),
    ensures
        match r {
            Some((c, e)) => spec_number(s@, p as int) == Some((c@, e as int)) && p < e <= s.len(),
            None => spec_number(s@, p as int) is None,
        },
{
    match float_end_at(s, p) {
        Some(e) => Some((Constant::Float(string_of_range(s, p, e)), e)),
        None => match integer_at(s, p) {
            Some((v, e)) => Some((Constant::Integer(v), e)),
            None => None,
        },
    }
}

/// Reads a constant at `p` (no blanks skipped): `true`, `false`, or a number.
pub fn constant(s: &Vec<char>, p: usize) -> (r: Option<(Constant, usize)>)
    requires
        p <= s.len(),
    ensures
        match r {
            Some((c, e)) => spec_constant(s@, p as int) == Some((c@, e as int)) && p < e <= s.len(),
            None => spec_constant(s@, p as int) is None,
        },
{
    match word_at_exec(s, p) {
        Some(e) => {
            if word_is(s, p, e, "true") {
                Some((Constant::Bool(true), e))
            } else if word_is(s, p, e, "false") {
                Some((Constant::Bool(false), e))
            } else {
                None
            }
        },
        None => number_at(s, p),
    }
}

/// Reads an identifier at `p` (no blanks skipped): a word that is not reserved.
pub fn identifier(s: &Vec<char>, p: usize) -> (r: Option<(Identifier, usize)>)
    requires
        p <= s.len(),
    ensures
        match r {
            Some((w, e)) => spec_identifier(s@, p as int) == Some((w@, e as int)) && p < e <= s.len(),
            None => spec_identifier(s@, p as int) is None,
        },
{
    match word_at_exec(s, p) {
        Some(e) => {
            if keyword_type_at(s, p, e).is_some() || is_other_keyword_at(s, p, e) {
                None
            } else {
                Some((string_of_range(s, p, e), e))
            }
        },
        None => None,
    }
}

/// Reads a name being declared; the same rule as [`identifier`].
pub fn valid_name(s: &Vec<char>, p: usize) -> (r: Option<(Identifier, usize)>)
    requires
        p <= s.len(),
    ensures
        match r {
            Some((w, e)) => spec_identifier(s@, p as int) == Some((w@, e as int)) && p < e <= s.len(),
            None => spec_identifier(s@, p as int) is None,
        },
{
    identifier(s, p)
}

/// Reads a basic type keyword at `p` (no blanks skipped).
pub fn basic_type(s: &Vec<char>, p: usize) -> (r: Option<(BasicType, usize)>)
    requires
        p <= s.len(),
    ensures
        match r {
            Some((t, e)) => spec_basic_type(s@, p as int) == Some((t@, e as int)) && p < e <= s.len(),
            None => spec_basic_type(s@, p as int) is None,
        },
{
    match word_at_exec(s, p) {
        Some(e) => match keyword_type_at(s, p, e) {
            Some(t) => Some((t, e)),
            None => None,
        },
        None => None,
    }
}

fn lex(s: &Vec<char>, p: usize) -> (r: Option<(Token, usize)>)
    requires
        p <= s.len(),
    ensures
        match r {
            Some((t, e)) => spec_lex(s@, p as int) == Some((t@, e as int)) && p < e <= s.len(),
            None => spec_lex(s@, p as int) is None,
        },
{
    match word_at_exec(s, p) {
        Some(e) => {
            let w = string_of_range(s, p, e);
            if word_is(s, p, e, "true") {
                Some((Token::Constant(Constant::Bool(true), w), e))
            } else if word_is(s, p, e, "false") {
                Some((Token::Constant(Constant::Bool(false), w), e))
            } else {
                match keyword_type_at(s, p, e) {
                    Some(t) => Some((Token::BasicType(t, w), e)),
                    None => {
                        let w2 = string_of_range(s, p, e);
                        Some((Token::Identifier(w, w2), e))
                    },
                }
            }
        },
        None => match number_at(s, p) {
            Some((c, e)) => Some((Token::Constant(c, string_of_range(s, p, e)), e)),
            None => match operator(s, p) {
                Some((op, e)) => {
                    let t = String::from_str(op.text());
                    Some((Token::Operator(op, t), e))
                },
                None => None,
            },
        },
    }
}

/// One token at `p`, with blanks skipped before and after it.
pub fn token(s: &Vec<char>, p: usize) -> (r: Option<(Token, usize)>)
    requires
        p <= s.len(),
    ensures
        match r {
            Some((t, e)) => spec_token(s@, p as int) == Some((t@, e as int)) && p < e <= s.len(),
            None => spec_token(s@, p as int) is None,
        },
{
    let a = skip_blank_at(s, p);
    match lex(s, a) {
        Some((t, e)) => Some((t, skip_blank_at(s, e))),
        None => None,
    }
}

/// The tokens read one after another from `p` (the `many0` of [`spec_token`]),
/// and the position where reading stopped.
pub open spec fn spec_tokens(s: Seq<char>, p: int) -> (Seq<SToken>, int)
    decreases s.len() - p,
{
    if !(0 <= p <= s.len()) {
        (Seq::empty(), p)
    } else {
        match spec_token(s, p) {
            Some((t, e)) => if p < e <= s.len() {
                let (ts, q) = spec_tokens(s, e);
                (seq![t] + ts, q)
            } else {
                (Seq::empty(), p)
            },
            None => (Seq::empty(), p),
        }
    }
}

/// Views of a vector of tokens.
pub open spec fn tokens_view(v: Seq<Token>) -> Seq<SToken> {
    v.map_values(|t: Token| t@)
}

/// Reads tokens one after another from `p` until no token can be read.
pub fn tokens(s: &Vec<char>, p: usize) -> (r: (Vec<Token>, usize))
    requires
        p <= s.len(),
    ensures
        spec_tokens(s@, p as int) == (tokens_view(r.0@), r.1 as int),
        p <= r.1 <= s.len(),
{
    let mut v: Vec<Token> = Vec::new();
    let mut i = p;
    while i <= s.len()
        invariant
            p <= i <= s.len(),
            spec_tokens(s@, p as int) == (tokens_view(v@) + spec_tokens(s@, i as int).0, spec_tokens(s@, i as int).1),
        decreases s.len() - i,
    {
        match token(s, i) {
            Some((t, e)) => {
                let ghost old_v = v@;
                let ghost t_view = t@;
                v.push(t);
                proof {
                    assert(tokens_view(v@) =~= tokens_view(old_v) + seq![t_view]);
                    let (ts, q) = spec_tokens(s@, e as int);
                    assert(spec_tokens(s@, i as int) == (seq![t_view] + ts, q));
                    assert(tokens_view(old_v) + (seq![t_view] + ts) =~= tokens_view(v@) + ts);
                }
                i = e;
            },
            None => {
                proof {
                    assert(tokens_view(v@) + Seq::<SToken>::empty() =~= tokens_view(v@));
                }
                return (v, i);
            },
        }
    }
    proof {
        assert(false);
    }
    (v, i)
}

proof fn lemma_operator_spelling(s: Seq<char>, p: int, i: int)
    ensures
        spec_operator_from(s, p, i) matches Some((op, e)) ==> e == p + op_text(op).len() && s.subrange(p, e) == op_text(op),
    decreases OPERATOR_COUNT - i,
{
    if 0 <= i < OPERATOR_COUNT && !has_tag(s, p, op_text(op_at(i))) {
        lemma_operator_spelling(s, p, i + 1);
    }
}

/// A token keeps its spelling: the spelling of a token read at `p` is the
/// text from `p` to where the token ends.
pub proof fn law_token_spelling_is_source(s: Seq<char>, p: int)
    ensures
        spec_lex(s, p) matches Some((t, e)) ==> token_text(t) == s.subrange(p, e),
{
    lemma_operator_spelling(s, p, 0);
}

/// A keyword names the basic type it spells.
proof fn lemma_keyword_type_spelling(w: Seq<char>)
    ensures
        keyword_type(w) matches Some(t) ==> basic_type_text(t) == w && !(t is TypeName),
{
}

/// Keywords are read as what they spell: a basic type keyword read gives the
/// basic type whose keyword it is, and `true`/`false` give the boolean they
/// spell.
pub proof fn law_keywords_are_what_they_spell(s: Seq<char>, p: int)
    ensures
        spec_basic_type(s, p) matches Some((t, e)) ==> basic_type_text(t) == s.subrange(p, e) && !(t is TypeName),
        spec_lex(s, p) matches Some((SToken::BasicType(t, w), _)) ==> basic_type_text(t) == w,
        spec_lex(s, p) matches Some((SToken::Constant(SConstant::Bool(b), w), _)) ==> w == (if b { "true"@ } else { "false"@ }),
{
    if let Some((w, e)) = word_at(s, p) {
        lemma_keyword_type_spelling(w);
    }
}

} // verus!
