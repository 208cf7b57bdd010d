//! The TypeScript syntax tree that the transformation produces, together with
//! its mathematical model (the `Spec*` types) that contracts speak of.
//!
//! The executable tree holds `String`s, `Vec`s and `Box`es; its model replaces
//! them with `Seq<char>`, `Seq<..>` and boxed models, so that two trees with the
//! same content have equal models.
use vstd::prelude::*;

verus! {

/// An identifier.
#[derive(Debug, PartialEq)]
pub struct Ident {
    pub sym: String,
}

/// A string literal; `value` is the literal's content.
#[derive(Debug, PartialEq)]
pub struct Str {
    pub value: String,
}

/// A literal. A number keeps the text of the Lua literal (underscores
/// removed); its floating-point value is computed when the tree is emitted.
#[derive(Debug, PartialEq)]
pub enum Lit {
    Str(Str),
    Num(String),
    Bool(bool),
}

#[derive(Clone, Copy, Debug, PartialEq, Eq, Structural)]
pub enum BinaryOp {
    LogicalAnd,
    LogicalOr,
    Exp,
    Gt,
    GtEq,
    Lt,
    LtEq,
    Add,
    Sub,
    Mul,
    Div,
    Mod,
    EqEqEq,
    NotEqEq,
}

#[derive(Clone, Copy, Debug, PartialEq, Eq, Structural)]
pub enum UnaryOp {
    Bang,
    Minus,
}

#[derive(Clone, Copy, Debug, PartialEq, Eq, Structural)]
pub enum AssignOp {
    Assign,
    AddAssign,
    SubAssign,
    MulAssign,
    DivAssign,
    ModAssign,
    ExpAssign,
}

#[derive(Clone, Copy, Debug, PartialEq, Eq, Structural)]
pub enum VarDeclKind {
    Var,
    Let,
    Const,
}

#[derive(Debug, PartialEq)]
pub enum Expr {
    Ident(Ident),
    Lit(Lit),
    Paren(Box<Expr>),
    Member { obj: Box<Expr>, prop: MemberProp },
    Call { callee: Box<Expr>, args: Vec<ExprOrSpread> },
    New { callee: Box<Expr>, args: Vec<ExprOrSpread> },
    Cond { test: Box<Expr>, cons: Box<Expr>, alt: Box<Expr> },
    Arrow(Box<Function>),
    Bin { op: BinaryOp, left: Box<Expr>, right: Box<Expr> },
    Unary { op: UnaryOp, arg: Box<Expr> },
    TsAs { expr: Box<Expr>, type_ann: Box<TsType> },
    Array(Vec<Option<ExprOrSpread>>),
    Object(Vec<KeyValueProp>),
    Assign { op: AssignOp, left: PatOrExpr, right: Box<Expr> },
    Fn(Box<Function>),
}

#[derive(Debug, PartialEq)]
pub struct ExprOrSpread {
    pub spread: bool,
    pub expr: Box<Expr>,
}

#[derive(Debug, PartialEq)]
pub enum MemberProp {
    Ident(Ident),
    Computed(Box<Expr>),
}

#[derive(Debug, PartialEq)]
pub enum PatOrExpr {
    Expr(Box<Expr>),
    Pat(Box<Pat>),
}

#[derive(Debug, PartialEq)]
pub struct KeyValueProp {
    pub key: PropName,
    pub value: Box<Expr>,
}

#[derive(Debug, PartialEq)]
pub enum PropName {
    Str(Str),
    Computed(Box<Expr>),
    Num(usize),
    Ident(Ident),
}

/// A function: the parameters, return type, type parameters and body that an
/// arrow function, a function expression and a function declaration share.
#[derive(Debug, PartialEq)]
pub struct Function {
    pub params: Vec<Pat>,
    pub return_type: Option<Box<TsType>>,
    pub type_params: Option<TsTypeParamDecl>,
    pub body: Vec<Stmt>,
}

#[derive(Debug, PartialEq)]
pub struct BindingIdent {
    pub id: Ident,
    pub type_ann: Option<Box<TsType>>,
}

#[derive(Debug, PartialEq)]
pub enum Pat {
    Ident(BindingIdent),
    Rest { arg: Box<Pat>, type_ann: Option<Box<TsType>> },
    Expr(Box<Expr>),
    Array(Vec<Option<Pat>>),
}

#[derive(Debug, PartialEq)]
pub struct VarDeclarator {
    pub name: Pat,
    pub init: Option<Box<Expr>>,
}

#[derive(Debug, PartialEq)]
pub struct VarDecl {
    pub kind: VarDeclKind,
    pub decls: Vec<VarDeclarator>,
}

#[derive(Debug, PartialEq)]
pub enum Stmt {
    Expr(Box<Expr>),
    Block(Vec<Stmt>),
    FnDecl { ident: Ident, function: Box<Function> },
    Var(VarDecl),
    TypeAlias { id: Ident, type_params: Option<TsTypeParamDecl>, type_ann: Box<TsType> },
    If { test: Box<Expr>, cons: Box<Stmt>, alt: Option<Box<Stmt>> },
    Return(Option<Box<Expr>>),
    Break,
    Continue,
    ForOf { left: VarDecl, right: Box<Expr>, body: Box<Stmt> },
    For { init: VarDecl, test: Box<Expr>, update: Box<Expr>, body: Box<Stmt> },
    While { test: Box<Expr>, body: Box<Stmt> },
    DoWhile { body: Box<Stmt>, test: Box<Expr> },
}

#[derive(Debug, PartialEq)]
pub enum TsEntityName {
    Ident(Ident),
    Qualified { left: Ident, right: Ident },
}

#[derive(Debug, PartialEq)]
pub enum TsType {
    Array(Box<TsType>),
    TypeRef { name: TsEntityName, params: Option<Vec<TsType>> },
    LitStr(Str),
    LitBool(bool),
    /// The empty template literal type `` ` ` ``.
    LitEmptyTemplate,
    Fn { type_params: Option<TsTypeParamDecl>, params: Vec<BindingIdent>, ret: Box<TsType> },
    Intersection(Vec<TsType>),
    Union(Vec<TsType>),
    Undefined,
    TypeLit(Vec<TsTypeElement>),
    Paren(Box<TsType>),
    Tuple(Vec<TsType>),
    Rest(Box<TsType>),
}

#[derive(Debug, PartialEq)]
pub enum TsTypeElement {
    Property { key: Ident, optional: bool, type_ann: Box<TsType> },
    Index { param: Ident, param_type: Box<TsType>, type_ann: Box<TsType> },
}

#[derive(Debug, PartialEq)]
pub struct TsTypeParam {
    pub name: Ident,
    pub constraint: Option<Box<TsType>>,
    pub default: Option<Box<TsType>>,
}

#[derive(Debug, PartialEq)]
pub struct TsTypeParamDecl {
    pub params: Vec<TsTypeParam>,
}

#[derive(Debug, PartialEq)]
pub enum ModuleItem {
    Stmt(Stmt),
    /// `export type { name }`
    ExportTypeName(Ident),
    /// `export default expr`
    ExportDefault(Box<Expr>),
    /// `export interface id extends extends { body }`
    ExportInterface { id: Ident, extends: Ident, body: Vec<TsTypeElement> },
}

// ---------------------------------------------------------------------------
// The model of the tree.
// ---------------------------------------------------------------------------

pub enum SpecLit {
    Str(Seq<char>),
    Num(Seq<char>),
    Bool(bool),
}

pub enum SpecExpr {
    Ident(Seq<char>),
    Lit(SpecLit),
    Paren(Box<SpecExpr>),
    Member { obj: Box<SpecExpr>, prop: SpecMemberProp },
    Call { callee: Box<SpecExpr>, args: Seq<SpecArg> },
    New { callee: Box<SpecExpr>, args: Seq<SpecArg> },
    Cond { test: Box<SpecExpr>, cons: Box<SpecExpr>, alt: Box<SpecExpr> },
    Arrow(Box<SpecFunction>),
    Bin { op: BinaryOp, left: Box<SpecExpr>, right: Box<SpecExpr> },
    Unary { op: UnaryOp, arg: Box<SpecExpr> },
    TsAs { expr: Box<SpecExpr>, type_ann: Box<SpecType> },
    Array(Seq<Option<SpecArg>>),
    Object(Seq<SpecProp>),
    Assign { op: AssignOp, left: SpecPatOrExpr, right: Box<SpecExpr> },
    Fn(Box<SpecFunction>),
}

pub struct SpecArg {
    pub spread: bool,
    pub expr: SpecExpr,
}

pub enum SpecMemberProp {
    Ident(Seq<char>),
    Computed(Box<SpecExpr>),
}

pub enum SpecPatOrExpr {
    Expr(Box<SpecExpr>),
    Pat(Box<SpecPat>),
}

pub enum SpecPropName {
    Str(Seq<char>),
    Computed(Box<SpecExpr>),
    Num(nat),
    Ident(Seq<char>),
}

pub struct SpecProp {
    pub key: SpecPropName,
    pub value: SpecExpr,
}

pub struct SpecFunction {
    pub params: Seq<SpecPat>,
    pub return_type: Option<SpecType>,
    pub type_params: Option<Seq<SpecTypeParam>>,
    pub body: Seq<SpecStmt>,
}

pub struct SpecBinding {
    pub id: Seq<char>,
    pub type_ann: Option<SpecType>,
}

pub enum SpecPat {
    Ident(SpecBinding),
    Rest { arg: Box<SpecPat>, type_ann: Option<SpecType> },
    Expr(Box<SpecExpr>),
    Array(Seq<Option<SpecPat>>),
}

pub struct SpecDeclarator {
    pub name: SpecPat,
    pub init: Option<SpecExpr>,
}

pub struct SpecVarDecl {
    pub kind: VarDeclKind,
    pub decls: Seq<SpecDeclarator>,
}

pub enum SpecStmt {
    Expr(Box<SpecExpr>),
    Block(Seq<SpecStmt>),
    FnDecl { ident: Seq<char>, function: Box<SpecFunction> },
    Var(SpecVarDecl),
    TypeAlias { id: Seq<char>, type_params: Option<Seq<SpecTypeParam>>, type_ann: Box<SpecType> },
    If { test: Box<SpecExpr>, cons: Box<SpecStmt>, alt: Option<Box<SpecStmt>> },
    Return(Option<Box<SpecExpr>>),
    Break,
    Continue,
    ForOf { left: SpecVarDecl, right: Box<SpecExpr>, body: Box<SpecStmt> },
    For { init: SpecVarDecl, test: Box<SpecExpr>, update: Box<SpecExpr>, body: Box<SpecStmt> },
    While { test: Box<SpecExpr>, body: Box<SpecStmt> },
    DoWhile { body: Box<SpecStmt>, test: Box<SpecExpr> },
}

pub enum SpecEntityName {
    Ident(Seq<char>),
    Qualified { left: Seq<char>, right: Seq<char> },
}

pub enum SpecType {
    Array(Box<SpecType>),
    TypeRef { name: SpecEntityName, params: Option<Seq<SpecType>> },
    LitStr(Seq<char>),
    LitBool(bool),
    LitEmptyTemplate,
    Fn { type_params: Option<Seq<SpecTypeParam>>, params: Seq<SpecBinding>, ret: Box<SpecType> },
    Intersection(Seq<SpecType>),
    Union(Seq<SpecType>),
    Undefined,
    TypeLit(Seq<SpecTypeElement>),
    Paren(Box<SpecType>),
    Tuple(Seq<SpecType>),
    Rest(Box<SpecType>),
}

pub enum SpecTypeElement {
    Property { key: Seq<char>, optional: bool, type_ann: SpecType },
    Index { param: Seq<char>, param_type: SpecType, type_ann: SpecType },
}

pub struct SpecTypeParam {
    pub name: Seq<char>,
    pub constraint: Option<SpecType>,
    pub default: Option<SpecType>,
}

pub enum SpecModuleItem {
    Stmt(SpecStmt),
    ExportTypeName(Seq<char>),
    ExportDefault(SpecExpr),
    ExportInterface { id: Seq<char>, extends: Seq<char>, body: Seq<SpecTypeElement> },
}

// ---------------------------------------------------------------------------
// From the tree to its model.
// ---------------------------------------------------------------------------

pub open spec fn view_lit(l: Lit) -> SpecLit {
    match l {
        Lit::Str(s) => SpecLit::Str(s.value@),
        Lit::Num(t) => SpecLit::Num(t@),
        Lit::Bool(b) => SpecLit::Bool(b),
    }
}

pub open spec fn view_expr(e: Expr) -> SpecExpr
    decreases e,
{
    match e {
        Expr::Ident(i) => SpecExpr::Ident(i.sym@),
        Expr::Lit(l) => SpecExpr::Lit(view_lit(l)),
        Expr::Paren(b) => SpecExpr::Paren(Box::new(view_expr(*b))),
        Expr::Member { obj, prop } => SpecExpr::Member {
            obj: Box::new(view_expr(*obj)),
            prop: view_member_prop(prop),
        },
        Expr::Call { callee, args } => SpecExpr::Call {
            callee: Box::new(view_expr(*callee)),
            args: view_args(args@),
        },
        Expr::New { callee, args } => SpecExpr::New {
            callee: Box::new(view_expr(*callee)),
            args: view_args(args@),
        },
        Expr::Cond { test, cons, alt } => SpecExpr::Cond {
            test: Box::new(view_expr(*test)),
            cons: Box::new(view_expr(*cons)),
            alt: Box::new(view_expr(*alt)),
        },
        Expr::Arrow(f) => SpecExpr::Arrow(Box::new(view_function(*f))),
        Expr::Bin { op, left, right } => SpecExpr::Bin {
            op,
            left: Box::new(view_expr(*left)),
            right: Box::new(view_expr(*right)),
        },
        Expr::Unary { op, arg } => SpecExpr::Unary { op, arg: Box::new(view_expr(*arg)) },
        Expr::TsAs { expr, type_ann } => SpecExpr::TsAs {
            expr: Box::new(view_expr(*expr)),
            type_ann: Box::new(view_type(*type_ann)),
        },
        Expr::Array(elems) => SpecExpr::Array(view_opt_args(elems@)),
        Expr::Object(props) => SpecExpr::Object(view_props(props@)),
        Expr::Assign { op, left, right } => SpecExpr::Assign {
            op,
            left: view_pat_or_expr(left),
            right: Box::new(view_expr(*right)),
        },
        Expr::Fn(f) => SpecExpr::Fn(Box::new(view_function(*f))),
    }
}

pub open spec fn view_member_prop(p: MemberProp) -> SpecMemberProp
    decreases p,
{
    match p {
        MemberProp::Ident(i) => SpecMemberProp::Ident(i.sym@),
        MemberProp::Computed(e) => SpecMemberProp::Computed(Box::new(view_expr(*e))),
    }
}

pub open spec fn view_pat_or_expr(p: PatOrExpr) -> SpecPatOrExpr
    decreases p,
{
    match p {
        PatOrExpr::Expr(e) => SpecPatOrExpr::Expr(Box::new(view_expr(*e))),
        PatOrExpr::Pat(p) => SpecPatOrExpr::Pat(Box::new(view_pat(*p))),
    }
}

pub open spec fn view_arg(a: ExprOrSpread) -> SpecArg
    decreases a,
{
    SpecArg { spread: a.spread, expr: view_expr(*a.expr) }
}

pub open spec fn view_args(s: Seq<ExprOrSpread>) -> Seq<SpecArg>
    decreases s,
{
    Seq::new(s.len(), |i: int| if 0 <= i < s.len() { view_arg(s[i]) } else { arbitrary() })
}

pub open spec fn view_opt_arg(a: Option<ExprOrSpread>) -> Option<SpecArg>
    decreases a,
{
    match a {
        Some(x) => Some(view_arg(x)),
        None => None,
    }
}

pub open spec fn view_opt_args(s: Seq<Option<ExprOrSpread>>) -> Seq<Option<SpecArg>>
    decreases s,
{
    Seq::new(s.len(), |i: int| if 0 <= i < s.len() { view_opt_arg(s[i]) } else { arbitrary() })
}

pub open spec fn view_prop_name(k: PropName) -> SpecPropName
    decreases k,
{
    match k {
        PropName::Str(s) => SpecPropName::Str(s.value@),
        PropName::Computed(e) => SpecPropName::Computed(Box::new(view_expr(*e))),
        PropName::Num(n) => SpecPropName::Num(n as nat),
        PropName::Ident(i) => SpecPropName::Ident(i.sym@),
    }
}

pub open spec fn view_prop(p: KeyValueProp) -> SpecProp
    decreases p,
{
    SpecProp { key: view_prop_name(p.key), value: view_expr(*p.value) }
}

pub open spec fn view_props(s: Seq<KeyValueProp>) -> Seq<SpecProp>
    decreases s,
{
    Seq::new(s.len(), |i: int| if 0 <= i < s.len() { view_prop(s[i]) } else { arbitrary() })
}

pub open spec fn view_function(f: Function) -> SpecFunction
    decreases f,
{
    SpecFunction {
        params: view_pats(f.params@),
        return_type: view_opt_type(f.return_type),
        type_params: view_opt_type_params(f.type_params),
        body: view_stmts(f.body@),
    }
}

pub open spec fn view_binding(b: BindingIdent) -> SpecBinding
    decreases b,
{
    SpecBinding { id: b.id.sym@, type_ann: view_opt_type(b.type_ann) }
}

pub open spec fn view_bindings(s: Seq<BindingIdent>) -> Seq<SpecBinding>
    decreases s,
{
    Seq::new(s.len(), |i: int| if 0 <= i < s.len() { view_binding(s[i]) } else { arbitrary() })
}

pub open spec fn view_pat(p: Pat) -> SpecPat
    decreases p,
{
    match p {
        Pat::Ident(b) => SpecPat::Ident(view_binding(b)),
        Pat::Rest { arg, type_ann } => SpecPat::Rest {
            arg: Box::new(view_pat(*arg)),
            type_ann: view_opt_type(type_ann),
        },
        Pat::Expr(e) => SpecPat::Expr(Box::new(view_expr(*e))),
        Pat::Array(elems) => SpecPat::Array(view_opt_pats(elems@)),
    }
}

pub open spec fn view_pats(s: Seq<Pat>) -> Seq<SpecPat>
    decreases s,
{
    Seq::new(s.len(), |i: int| if 0 <= i < s.len() { view_pat(s[i]) } else { arbitrary() })
}

pub open spec fn view_opt_pat(p: Option<Pat>) -> Option<SpecPat>
    decreases p,
{
    match p {
        Some(x) => Some(view_pat(x)),
        None => None,
    }
}

pub open spec fn view_opt_pats(s: Seq<Option<Pat>>) -> Seq<Option<SpecPat>>
    decreases s,
{
    Seq::new(s.len(), |i: int| if 0 <= i < s.len() { view_opt_pat(s[i]) } else { arbitrary() })
}

pub open spec fn view_opt_expr(e: Option<Box<Expr>>) -> Option<SpecExpr>
    decreases e,
{
    match e {
        Some(x) => Some(view_expr(*x)),
        None => None,
    }
}

pub open spec fn view_declarator(d: VarDeclarator) -> SpecDeclarator
    decreases d,
{
    SpecDeclarator { name: view_pat(d.name), init: view_opt_expr(d.init) }
}

pub open spec fn view_declarators(s: Seq<VarDeclarator>) -> Seq<SpecDeclarator>
    decreases s,
{
    Seq::new(s.len(), |i: int| if 0 <= i < s.len() { view_declarator(s[i]) } else { arbitrary() })
}

pub open spec fn view_var_decl(d: VarDecl) -> SpecVarDecl
    decreases d,
{
    SpecVarDecl { kind: d.kind, decls: view_declarators(d.decls@) }
}

pub open spec fn view_stmt(s: Stmt) -> SpecStmt
    decreases s,
{
    match s {
        Stmt::Expr(e) => SpecStmt::Expr(Box::new(view_expr(*e))),
        Stmt::Block(b) => SpecStmt::Block(view_stmts(b@)),
        Stmt::FnDecl { ident, function } => SpecStmt::FnDecl {
            ident: ident.sym@,
            function: Box::new(view_function(*function)),
        },
        Stmt::Var(d) => SpecStmt::Var(view_var_decl(d)),
        Stmt::TypeAlias { id, type_params, type_ann } => SpecStmt::TypeAlias {
            id: id.sym@,
            type_params: view_opt_type_params(type_params),
            type_ann: Box::new(view_type(*type_ann)),
        },
        Stmt::If { test, cons, alt } => SpecStmt::If {
            test: Box::new(view_expr(*test)),
            cons: Box::new(view_stmt(*cons)),
            alt: match alt {
                Some(a) => Some(Box::new(view_stmt(*a))),
                None => None,
            },
        },
        Stmt::Return(arg) => SpecStmt::Return(
            match arg {
                Some(a) => Some(Box::new(view_expr(*a))),
                None => None,
            },
        ),
        Stmt::Break => SpecStmt::Break,
        Stmt::Continue => SpecStmt::Continue,
        Stmt::ForOf { left, right, body } => SpecStmt::ForOf {
            left: view_var_decl(left),
            right: Box::new(view_expr(*right)),
            body: Box::new(view_stmt(*body)),
        },
        Stmt::For { init, test, update, body } => SpecStmt::For {
            init: view_var_decl(init),
            test: Box::new(view_expr(*test)),
            update: Box::new(view_expr(*update)),
            body: Box::new(view_stmt(*body)),
        },
        Stmt::While { test, body } => SpecStmt::While {
            test: Box::new(view_expr(*test)),
            body: Box::new(view_stmt(*body)),
        },
        Stmt::DoWhile { body, test } => SpecStmt::DoWhile {
            body: Box::new(view_stmt(*body)),
            test: Box::new(view_expr(*test)),
        },
    }
}

pub open spec fn view_stmts(s: Seq<Stmt>) -> Seq<SpecStmt>
    decreases s,
{
    Seq::new(s.len(), |i: int| if 0 <= i < s.len() { view_stmt(s[i]) } else { arbitrary() })
}

pub open spec fn view_entity_name(n: TsEntityName) -> SpecEntityName {
    match n {
        TsEntityName::Ident(i) => SpecEntityName::Ident(i.sym@),
        TsEntityName::Qualified { left, right } => SpecEntityName::Qualified {
            left: left.sym@,
            right: right.sym@,
        },
    }
}

pub open spec fn view_type(t: TsType) -> SpecType
    decreases t,
{
    match t {
        TsType::Array(e) => SpecType::Array(Box::new(view_type(*e))),
        TsType::TypeRef { name, params } => SpecType::TypeRef {
            name: view_entity_name(name),
            params: match params {
                Some(p) => Some(view_types(p@)),
                None => None,
            },
        },
        TsType::LitStr(s) => SpecType::LitStr(s.value@),
        TsType::LitBool(b) => SpecType::LitBool(b),
        TsType::LitEmptyTemplate => SpecType::LitEmptyTemplate,
        TsType::Fn { type_params, params, ret } => SpecType::Fn {
            type_params: view_opt_type_params(type_params),
            params: view_bindings(params@),
            ret: Box::new(view_type(*ret)),
        },
        TsType::Intersection(ts) => SpecType::Intersection(view_types(ts@)),
        TsType::Union(ts) => SpecType::Union(view_types(ts@)),
        TsType::Undefined => SpecType::Undefined,
        TsType::TypeLit(m) => SpecType::TypeLit(view_type_elements(m@)),
        TsType::Paren(t) => SpecType::Paren(Box::new(view_type(*t))),
        TsType::Tuple(ts) => SpecType::Tuple(view_types(ts@)),
        TsType::Rest(t) => SpecType::Rest(Box::new(view_type(*t))),
    }
}

pub open spec fn view_types(s: Seq<TsType>) -> Seq<SpecType>
    decreases s,
{
    Seq::new(s.len(), |i: int| if 0 <= i < s.len() { view_type(s[i]) } else { arbitrary() })
}

pub open spec fn view_opt_type(t: Option<Box<TsType>>) -> Option<SpecType>
    decreases t,
{
    match t {
        Some(x) => Some(view_type(*x)),
        None => None,
    }
}

pub open spec fn view_type_element(m: TsTypeElement) -> SpecTypeElement
    decreases m,
{
    match m {
        TsTypeElement::Property { key, optional, type_ann } => SpecTypeElement::Property {
            key: key.sym@,
            optional,
            type_ann: view_type(*type_ann),
        },
        TsTypeElement::Index { param, param_type, type_ann } => SpecTypeElement::Index {
            param: param.sym@,
            param_type: view_type(*param_type),
            type_ann: view_type(*type_ann),
        },
    }
}

pub open spec fn view_type_elements(s: Seq<TsTypeElement>) -> Seq<SpecTypeElement>
    decreases s,
{
    Seq::new(s.len(), |i: int| if 0 <= i < s.len() { view_type_element(s[i]) } else { arbitrary() })
}

pub open spec fn view_type_param(p: TsTypeParam) -> SpecTypeParam
    decreases p,
{
    SpecTypeParam {
        name: p.name.sym@,
        constraint: view_opt_type(p.constraint),
        default: view_opt_type(p.default),
    }
}

pub open spec fn view_type_params(s: Seq<TsTypeParam>) -> Seq<SpecTypeParam>
    decreases s,
{
    Seq::new(s.len(), |i: int| if 0 <= i < s.len() { view_type_param(s[i]) } else { arbitrary() })
}

pub open spec fn view_opt_type_params(d: Option<TsTypeParamDecl>) -> Option<Seq<SpecTypeParam>>
    decreases d,
{
    match d {
        Some(decl) => Some(view_type_params(decl.params@)),
        None => None,
    }
}

pub open spec fn view_module_item(m: ModuleItem) -> SpecModuleItem {
    match m {
        ModuleItem::Stmt(s) => SpecModuleItem::Stmt(view_stmt(s)),
        ModuleItem::ExportTypeName(i) => SpecModuleItem::ExportTypeName(i.sym@),
        ModuleItem::ExportDefault(e) => SpecModuleItem::ExportDefault(view_expr(*e)),
        ModuleItem::ExportInterface { id, extends, body } => SpecModuleItem::ExportInterface {
            id: id.sym@,
            extends: extends.sym@,
            body: view_type_elements(body@),
        },
    }
}

pub open spec fn view_module_items(s: Seq<ModuleItem>) -> Seq<SpecModuleItem> {
    Seq::new(s.len(), |i: int| view_module_item(s[i]))
}

impl View for Expr {
    type V = SpecExpr;

    open spec fn view(&self) -> SpecExpr {
        view_expr(*self)
    }
}

impl View for Stmt {
    type V = SpecStmt;

    open spec fn view(&self) -> SpecStmt {
        view_stmt(*self)
    }
}

impl View for Pat {
    type V = SpecPat;

    open spec fn view(&self) -> SpecPat {
        view_pat(*self)
    }
}

impl View for TsType {
    type V = SpecType;

    open spec fn view(&self) -> SpecType {
        view_type(*self)
    }
}

impl View for Ident {
    type V = Seq<char>;

    open spec fn view(&self) -> Seq<char> {
        self.sym@
    }
}

impl View for Str {
    type V = Seq<char>;

    open spec fn view(&self) -> Seq<char> {
        self.value@
    }
}

impl View for ModuleItem {
    type V = SpecModuleItem;

    open spec fn view(&self) -> SpecModuleItem {
        view_module_item(*self)
    }
}

} // verus!
