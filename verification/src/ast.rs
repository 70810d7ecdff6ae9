//! The syntax-tree model the rules inspect. A syntax provider parses raw
//! source text and hands the core a `SyntaxTree` of plain values: items with
//! their names, visibility and attribute flags, statement lists, and the
//! expression shapes the rules pattern-match on. Positions are 1-based
//! line/column pairs resolved by the provider.

use vstd::prelude::*;

verus! {

/// A resolved source position of a syntax node.
#[derive(Clone, Copy, Debug, PartialEq, Eq, Structural)]
pub struct Span {
    pub line: usize,
    pub col: usize,
}

/// One terminal name brought in by an import, with its position.
pub struct ImportedName {
    pub name: String,
    pub span: Span,
}

/// An import item: its path rendered with `::` separators (used to classify
/// it), its full rendered text, and the terminal names it binds.
pub struct UseImport {
    pub path: String,
    pub rendered: String,
    pub names: Vec<ImportedName>,
    pub span: Span,
}

/// A top-level function item.
pub struct FnItem {
    pub name: String,
    pub span: Span,
    pub is_pub: bool,
    pub has_doc: bool,
    pub is_unsafe: bool,
    pub has_must_use: bool,
    pub body: Vec<Stmt>,
    /// Every identifier appearing anywhere in the item, as collected
    /// by the syntax provider.
    pub idents: Vec<String>,
}

/// A top-level struct, enum, or trait item.
pub struct TypeItem {
    pub name: String,
    pub span: Span,
    pub is_pub: bool,
    pub has_doc: bool,
    /// Every identifier appearing anywhere in the item.
    pub idents: Vec<String>,
}

/// Any other top-level item; its nested statement bodies are kept so that
/// expression-level rules still see the expressions inside.
pub struct OtherItem {
    pub stmts: Vec<Stmt>,
    /// Every identifier appearing anywhere in the item.
    pub idents: Vec<String>,
}

/// A top-level item of a source file.
pub enum Item {
    Fn(FnItem),
    Struct(TypeItem),
    Enum(TypeItem),
    Trait(TypeItem),
    Use(UseImport),
    Other(OtherItem),
}

/// A binary operator, distinguished only as far as the rules need.
#[derive(Clone, Copy, Debug, PartialEq, Eq, Structural)]
pub enum BinOp {
    And,
    Or,
    Other,
}

/// A literal, distinguished only as far as the rules need. An integer
/// literal carries its base-ten digits.
pub enum LitKind {
    StrLit,
    IntLit(String),
    OtherLit,
}

/// A pattern, distinguished only as far as the rules need: a bare path
/// pattern keeps its last segment name.
pub enum Pat {
    PathPat(Option<String>),
    OtherPat,
}

/// One arm of a `match` expression.
pub struct Arm {
    pub pat: Pat,
    pub body: Expr,
}

/// An expression shape. Variants the rules do not distinguish collapse into
/// `Other`, which still carries the child expressions for traversal.
pub enum Expr {
    Call { func: Box<Expr>, args: Vec<Expr> },
    MethodCall { receiver: Box<Expr>, method: String, args: Vec<Expr>, span: Span },
    MacroCall { name: String, tokens: String, span: Span },
    If { cond: Box<Expr>, then_body: Vec<Stmt>, else_body: Option<Box<Expr>> },
    Match { scrutinee: Box<Expr>, arms: Vec<Arm>, span: Span },
    While { cond: Box<Expr>, body: Vec<Stmt> },
    ForLoop { iter: Box<Expr>, body: Vec<Stmt>, span: Span },
    Loop { body: Vec<Stmt> },
    Binary { op: BinOp, left: Box<Expr>, right: Box<Expr> },
    Lit { kind: LitKind },
    PathExpr { last: Option<String>, span: Span },
    Reference { inner: Box<Expr> },
    LetExpr { inner: Box<Expr>, span: Span },
    RangeExpr { start: Option<Box<Expr>>, end: Option<Box<Expr>> },
    Block { body: Vec<Stmt> },
    Other { children: Vec<Expr> },
}

/// A statement: an expression statement, a local binding with an optional
/// initializer, or anything else.
pub enum Stmt {
    ExprStmt(Expr),
    LocalStmt(Option<Expr>),
    OtherStmt,
}

/// The parsed model of one source file.
pub struct SyntaxTree {
    pub items: Vec<Item>,
}

} // verus!
