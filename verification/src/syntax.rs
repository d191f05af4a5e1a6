//! The part of a Rust syntax tree that the state machine parser reads.
//!
//! Each node keeps, as plain values, what the parser looks at: identifiers,
//! the source text of statements and expressions, and the position where a
//! node starts, which error reports carry.
use vstd::prelude::*;

verus! {

/// A position in the source text: `line` counts from 1, `column` from 0.
#[derive(Clone, Copy, Debug, PartialEq, Eq)]
pub struct LineColumn {
    pub line: usize,
    pub column: usize,
}

/// A whole source file: its top-level items in order.
#[derive(Debug, PartialEq, Eq)]
pub struct SourceFile {
    pub items: Vec<Item>,
}

/// A top-level item: an `impl` block, or anything else.
#[derive(Debug, PartialEq, Eq)]
pub enum Item {
    Impl(ItemImpl),
    Other,
}

/// An `impl` block: `impl Trait for SelfTy { items }` or an inherent `impl SelfTy { items }`.
#[derive(Debug, PartialEq, Eq)]
pub struct ItemImpl {
    /// The path of the implemented trait; `None` for an inherent impl.
    pub trait_: Option<Path>,
    pub self_ty: Type,
    pub items: Vec<ImplItem>,
    /// Where the whole `impl` block starts.
    pub span_start: LineColumn,
}

/// A path such as `a::b::C<T>`.
#[derive(Debug, PartialEq, Eq)]
pub struct Path {
    /// Whether the path starts with `::`.
    pub leading_colon: bool,
    pub segments: Vec<PathSegment>,
}

/// One segment of a path: an identifier and its generic arguments.
#[derive(Debug, PartialEq, Eq)]
pub struct PathSegment {
    pub ident: String,
    pub arguments: PathArguments,
}

/// The generic arguments that follow a path segment, with the position where they start.
#[derive(Debug, PartialEq, Eq)]
pub struct PathArguments {
    pub kind: PathArgumentsKind,
    pub span_start: LineColumn,
}

#[derive(Debug, PartialEq, Eq)]
pub enum PathArgumentsKind {
    /// No arguments: `C`.
    Empty,
    /// Angle-bracketed arguments: `C<A, B>`.
    AngleBracketed(Vec<GenericArgument>),
    /// Parenthesized arguments: `Fn(A) -> B`.
    Parenthesized,
}

/// One angle-bracketed generic argument.
#[derive(Debug, PartialEq, Eq)]
pub enum GenericArgument {
    Type(Type),
    Other,
}

/// A type: a path type such as `a::B`, or any other type with the position where it starts.
#[derive(Debug, PartialEq, Eq)]
pub enum Type {
    Path(Path),
    Other(LineColumn),
}

/// An item inside an `impl` block.
#[derive(Debug, PartialEq, Eq)]
pub enum ImplItem {
    Type(ImplItemType),
    Fn(ImplItemFn),
    Other,
}

/// An associated type: `type Ident = Ty;`.
#[derive(Debug, PartialEq, Eq)]
pub struct ImplItemType {
    pub ident: String,
    pub ty: Type,
    pub span_start: LineColumn,
}

/// An associated function with its body.
#[derive(Debug, PartialEq, Eq)]
pub struct ImplItemFn {
    pub ident: String,
    pub block: Block,
    pub span_start: LineColumn,
}

/// A block `{ stmts }`.
#[derive(Debug, PartialEq, Eq)]
pub struct Block {
    pub stmts: Vec<Stmt>,
}

/// A statement with its source text (`None` where the source text is not available).
#[derive(Debug, PartialEq, Eq)]
pub struct Stmt {
    pub kind: StmtKind,
    pub text: Option<String>,
}

#[derive(Debug, PartialEq, Eq)]
pub enum StmtKind {
    /// A `let` binding.
    Local,
    /// A nested item.
    Item,
    /// An expression, with or without a trailing semicolon.
    Expr(Expr),
    /// A macro invocation in statement position, such as `println!(..);`.
    Macro,
}

/// An expression with its source text (`None` where the source text is not available).
#[derive(Debug, PartialEq, Eq)]
pub struct Expr {
    pub kind: ExprKind,
    pub text: Option<String>,
}

#[derive(Debug, PartialEq, Eq)]
pub enum ExprKind {
    /// A macro invocation `path!(tokens)`.
    Macro(ExprMacro),
    /// `return` or `return expr`.
    Return(Option<Box<Expr>>),
    /// `if cond { .. } else ..`.
    If(ExprIf),
    /// A block expression `{ .. }`.
    Block(Block),
    /// `match expr { arms }`.
    Match(ExprMatch),
    /// A path expression such as `evt` or `a::b`.
    Path(Path),
    /// Any other expression.
    Other,
}

/// A macro invocation: its path, and its tokens as text.
#[derive(Debug, PartialEq, Eq)]
pub struct ExprMacro {
    pub path: Path,
    pub tokens: String,
}

/// `if cond { then_branch } else else_branch`; the else branch is a block or another `if`.
#[derive(Debug, PartialEq, Eq)]
pub struct ExprIf {
    pub cond: Box<Expr>,
    pub then_branch: Block,
    pub else_branch: Option<Box<Expr>>,
}

/// `match expr { arms }`.
#[derive(Debug, PartialEq, Eq)]
pub struct ExprMatch {
    pub expr: Box<Expr>,
    pub arms: Vec<Arm>,
}

/// One match arm `pat => body`.
#[derive(Debug, PartialEq, Eq)]
pub struct Arm {
    pub pat: Pat,
    pub body: Box<Expr>,
}

/// A pattern: `_`, a path pattern such as `Evt::A` (with the position where it starts), or any other.
#[derive(Debug, PartialEq, Eq)]
pub enum Pat {
    Wild,
    Path(Path, LineColumn),
    Other,
}

/// The identifier that a path consists of, where it is a single plain identifier.
pub open spec fn spec_path_ident(path: Path) -> Option<String> {
    if !path.leading_colon && path.segments@.len() == 1
        && path.segments@[0].arguments.kind is Empty {
        Some(path.segments@[0].ident)
    } else {
        None
    }
}

impl Path {
    /// The identifier that this path consists of, if it is a single identifier with no
    /// leading `::` and no generic arguments.
    pub fn get_ident(&self) -> (res: Option<&String>)
        ensures
            match res {
                Some(id) => spec_path_ident(*self) == Some(*id),
                None => spec_path_ident(*self) is None,
            },
    {
        if !self.leading_colon && self.segments.len() == 1 {
            match self.segments[0].arguments.kind {
                PathArgumentsKind::Empty => Some(&self.segments[0].ident),
                _ => None,
            }
        } else {
            None
        }
    }

    /// The last segment of the path, if any.
    pub fn last_segment(&self) -> (res: Option<&PathSegment>)
        ensures
            match res {
                Some(s) => self.segments@.len() > 0 && *s == self.segments@.last(),
                None => self.segments@.len() == 0,
            },
    {
        if self.segments.len() == 0 {
            None
        } else {
            Some(&self.segments[self.segments.len() - 1])
        }
    }
}

} // verus!
