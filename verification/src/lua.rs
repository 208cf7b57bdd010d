//! The Luau syntax tree that the transformation reads.
//!
//! It holds, as plain values, what the transformation reads of a parsed Luau
//! file. Wherever the transformation may give up on a node and report it, the
//! node keeps `source`: its text as written, surrounding comments and
//! whitespace included. Variants named `Other` stand for the kinds of nodes
//! that the transformation does not know; they keep their source text only.
use vstd::prelude::*;

verus! {

#[derive(Debug, PartialEq)]
pub enum Symbol {
    Nil,
    True,
    False,
    Ellipse,
    Other,
}

#[derive(Debug, PartialEq)]
pub enum TokenKind {
    /// A number literal; `text` is the literal as written.
    Number { text: String },
    /// A string literal; `literal` is its content between the quotes.
    StringLiteral { literal: String },
    Symbol(Symbol),
    Other,
}

#[derive(Debug, PartialEq)]
pub struct Token {
    pub kind: TokenKind,
    pub source: String,
}

#[derive(Debug, PartialEq)]
pub enum BinOp {
    And,
    Caret,
    GreaterThan,
    GreaterThanEqual,
    LessThan,
    LessThanEqual,
    Minus,
    Or,
    Percent,
    Plus,
    Slash,
    Star,
    TildeEqual,
    TwoDots,
    TwoEqual,
    Other(String),
}

#[derive(Debug, PartialEq)]
pub enum UnOp {
    Minus,
    Not,
    Hash,
    Other(String),
}

#[derive(Debug, PartialEq)]
pub enum CompoundOp {
    PlusEqual,
    MinusEqual,
    StarEqual,
    SlashEqual,
    PercentEqual,
    CaretEqual,
    TwoDotsEqual,
    Other(String),
}

/// `lhs binop rhs`
#[derive(Debug, PartialEq)]
pub struct BinaryOperation {
    pub lhs: Expression,
    pub binop: BinOp,
    pub rhs: Expression,
}

#[derive(Debug, PartialEq)]
pub enum Expression {
    BinaryOperator(Box<BinaryOperation>),
    Parentheses { expression: Box<Expression> },
    UnaryOperator { unop: UnOp, expression: Box<Expression> },
    /// A value, with the type it is asserted to have (`value :: type`), if any.
    Value { value: Box<Value>, type_assertion: Option<TypeInfo> },
    Other(String),
}

#[derive(Debug, PartialEq)]
pub enum Value {
    Function(Box<FunctionBody>),
    FunctionCall(FunctionCall),
    IfExpression(Box<IfExpression>),
    TableConstructor(TableConstructor),
    Number(Token),
    ParenthesesExpression(Box<Expression>),
    String(Token),
    Symbol(Token),
    Var(Var),
    Other(String),
}

#[derive(Debug, PartialEq)]
pub struct FunctionCall {
    pub prefix: Prefix,
    pub suffixes: Vec<Suffix>,
}

#[derive(Debug, PartialEq)]
pub struct VarExpression {
    pub prefix: Prefix,
    pub suffixes: Vec<Suffix>,
}

#[derive(Debug, PartialEq)]
pub enum Var {
    Expression(Box<VarExpression>),
    Name(String),
    Other(String),
}

#[derive(Debug, PartialEq)]
pub enum Prefix {
    Name(String),
    Expression(Box<Expression>),
    Other(String),
}

#[derive(Debug, PartialEq)]
pub enum Suffix {
    Call(Call),
    Index(Index),
    Other(String),
}

#[derive(Debug, PartialEq)]
pub enum Call {
    /// `:name(args)`
    MethodCall { name: String, args: FunctionArgs },
    /// `(args)`
    AnonymousCall(FunctionArgs),
    Other(String),
}

#[derive(Debug, PartialEq)]
pub enum FunctionArgs {
    Parentheses(Vec<Expression>),
    String(Token),
    TableConstructor(TableConstructor),
    Other(String),
}

#[derive(Debug, PartialEq)]
pub enum Index {
    Brackets(Box<Expression>),
    Dot(String),
    Other(String),
}

#[derive(Debug, PartialEq)]
pub struct ElseIfExpression {
    pub condition: Expression,
    pub expression: Expression,
}

#[derive(Debug, PartialEq)]
pub struct IfExpression {
    pub condition: Expression,
    pub if_expression: Expression,
    pub else_if_expressions: Option<Vec<ElseIfExpression>>,
    pub else_expression: Expression,
}

#[derive(Debug, PartialEq)]
pub struct TableConstructor {
    pub fields: Vec<Field>,
}

#[derive(Debug, PartialEq)]
pub enum Field {
    NameKey { key: String, value: Expression },
    ExpressionKey { key: Expression, value: Expression },
    NoKey(Expression),
    Other(String),
}

#[derive(Debug, PartialEq)]
pub enum Parameter {
    Name { name: String, source: String },
    Ellipse { source: String },
    Other(String),
}

/// The parameters, types and body of a function. `type_specifiers[i]` is the
/// type given to `parameters[i]`, if any.
#[derive(Debug, PartialEq)]
pub struct FunctionBody {
    pub generics: Option<GenericDeclaration>,
    pub parameters: Vec<Parameter>,
    pub type_specifiers: Vec<Option<TypeInfo>>,
    pub return_type: Option<TypeInfo>,
    pub block: Block,
}

#[derive(Debug, PartialEq)]
pub struct Block {
    pub stmts: Vec<Stmt>,
    pub last_stmt: Option<LastStmt>,
}

#[derive(Debug, PartialEq)]
pub enum LastStmt {
    Break,
    Continue,
    Return(Vec<Expression>),
    Other(String),
}

#[derive(Debug, PartialEq)]
pub struct Assignment {
    pub variables: Vec<Var>,
    pub expressions: Vec<Expression>,
}

#[derive(Debug, PartialEq)]
pub struct CompoundAssignment {
    pub lhs: Var,
    pub operator: CompoundOp,
    pub rhs: Expression,
}

/// `first.rest[0].rest[1]...:method_name`
#[derive(Debug, PartialEq)]
pub struct FunctionName {
    pub first: String,
    pub rest: Vec<String>,
    pub method_name: Option<String>,
}

#[derive(Debug, PartialEq)]
pub struct FunctionDeclaration {
    pub name: FunctionName,
    pub body: FunctionBody,
}

#[derive(Debug, PartialEq)]
pub struct LocalFunction {
    pub name: String,
    pub body: FunctionBody,
}

#[derive(Debug, PartialEq)]
pub struct GenericFor {
    pub names: Vec<String>,
    /// `type_specifiers[i]` is the type given to `names[i]`, if any.
    pub type_specifiers: Vec<Option<TypeInfo>>,
    pub expressions: Vec<Expression>,
    pub block: Block,
    pub source: String,
}

#[derive(Debug, PartialEq)]
pub struct NumericFor {
    pub index_variable: String,
    pub type_specifier: Option<TypeInfo>,
    pub start: Expression,
    pub end: Expression,
    pub step: Option<Expression>,
    pub block: Block,
    pub source: String,
}

#[derive(Debug, PartialEq)]
pub struct ElseIf {
    pub condition: Expression,
    pub block: Block,
}

#[derive(Debug, PartialEq)]
pub struct If {
    pub condition: Expression,
    pub block: Block,
    pub else_if: Option<Vec<ElseIf>>,
    pub else_block: Option<Block>,
}

/// `local names: type_specifiers = expressions`; `has_equal` tells whether
/// the `=` is there.
#[derive(Debug, PartialEq)]
pub struct LocalAssignment {
    pub names: Vec<String>,
    pub type_specifiers: Vec<Option<TypeInfo>>,
    pub has_equal: bool,
    pub expressions: Vec<Expression>,
    pub source: String,
}

#[derive(Debug, PartialEq)]
pub enum Stmt {
    Assignment(Assignment),
    Do(Block),
    FunctionCall(FunctionCall),
    FunctionDeclaration(FunctionDeclaration),
    GenericFor(GenericFor),
    If(If),
    LocalAssignment(LocalAssignment),
    LocalFunction(LocalFunction),
    NumericFor(NumericFor),
    Repeat { block: Block, until: Expression },
    While { condition: Expression, block: Block },
    CompoundAssignment(CompoundAssignment),
    ExportedTypeDeclaration { declaration: TypeDeclaration, source: String },
    TypeDeclaration(TypeDeclaration),
    Other(String),
}

// ---------------------------------------------------------------------------
// Types
// ---------------------------------------------------------------------------

#[derive(Debug, PartialEq)]
pub struct TypeArgument {
    pub name: Option<String>,
    pub type_info: TypeInfo,
}

#[derive(Debug, PartialEq)]
pub enum IndexedTypeInfo {
    Basic(String),
    Generic { base: String, generics: Vec<TypeInfo> },
}

#[derive(Debug, PartialEq)]
pub enum TypeFieldKey {
    Name(String),
    IndexSignature(TypeInfo),
}

#[derive(Debug, PartialEq)]
pub struct TypeField {
    pub key: TypeFieldKey,
    pub value: TypeInfo,
}

#[derive(Debug, PartialEq)]
pub enum TypeInfo {
    Array(Box<TypeInfo>),
    Basic(String),
    /// A string literal type, quotes included.
    String(String),
    /// `true` or `false`, as written.
    Boolean(String),
    Callback {
        generics: Option<GenericDeclaration>,
        arguments: Vec<TypeArgument>,
        return_type: Box<TypeInfo>,
    },
    Generic { base: String, generics: Vec<TypeInfo> },
    GenericPack { source: String },
    Intersection { left: Box<TypeInfo>, right: Box<TypeInfo> },
    Module { module: String, type_info: Box<IndexedTypeInfo> },
    Optional { base: Box<TypeInfo> },
    Table { fields: Vec<TypeField> },
    Typeof { source: String },
    Tuple { types: Vec<TypeInfo> },
    Union { left: Box<TypeInfo>, right: Box<TypeInfo> },
    Variadic { type_info: Box<TypeInfo> },
    VariadicPack { source: String },
    Other(String),
}

#[derive(Debug, PartialEq)]
pub enum GenericParameterInfo {
    Name(String),
    Variadic { source: String },
    Other(String),
}

#[derive(Debug, PartialEq)]
pub struct GenericDeclarationParameter {
    pub parameter: GenericParameterInfo,
    pub default_type: Option<TypeInfo>,
    pub source: String,
}

#[derive(Debug, PartialEq)]
pub struct GenericDeclaration {
    pub generics: Vec<GenericDeclarationParameter>,
}

/// `type name<generics> = type_definition`; `name_source` is the
/// name with its surrounding trivia.
#[derive(Debug, PartialEq)]
pub struct TypeDeclaration {
    pub name: String,
    pub name_source: String,
    pub generics: Option<GenericDeclaration>,
    pub type_definition: TypeInfo,
}

} // verus!
