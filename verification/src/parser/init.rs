//! Parsing of an `init` function: the initial transition and the action before it.
use vstd::prelude::*;

use crate::errors::Error;
use crate::parser::{clone_opt_string, ident_is};
use crate::syntax::{ExprKind, ExprMacro, ImplItemFn, StmtKind};

verus! {

/// The target of an `init_transition!(Target)` invocation: its tokens as text.
pub open spec fn spec_try_parse_init_exprmacro(m: ExprMacro) -> Option<String> {
    if m.path.segments@.len() > 0 && m.path.segments@.last().ident@ == "init_transition"@ {
        Some(m.tokens)
    } else {
        None
    }
}

/// The initial transition in an expression statement: `init_transition!(T)` or
/// `return init_transition!(T)`.
pub open spec fn spec_init_transition_in(kind: StmtKind) -> Option<String> {
    match kind {
        StmtKind::Expr(e) => match e.kind {
            ExprKind::Macro(m) => spec_try_parse_init_exprmacro(m),
            ExprKind::Return(r) => match r {
                Some(inner) => match inner.kind {
                    ExprKind::Macro(m) => spec_try_parse_init_exprmacro(m),
                    _ => None,
                },
                None => None,
            },
            _ => None,
        },
        _ => None,
    }
}

/// `spec_parse_init_fn` from the `i`-th statement on, with `action` the source text of the
/// statement before it.
pub open spec fn spec_init_from(f: ImplItemFn, i: int, action: Option<String>) -> Result<
    (String, Option<String>),
    Error,
>
    decreases f.block.stmts@.len() - i,
{
    if i < 0 || i >= f.block.stmts@.len() {
        Err(Error::MissingInitTranCall { line: f.span_start.line, col: f.span_start.column })
    } else {
        match spec_init_transition_in(f.block.stmts@[i].kind) {
            Some(target) => Ok((target, action)),
            None => spec_init_from(f, i + 1, f.block.stmts@[i].text),
        }
    }
}

/// The target of the first initial transition in the body of an `init` function, and the
/// source text of the statement just before it.
pub open spec fn spec_parse_init_fn(f: ImplItemFn) -> Result<(String, Option<String>), Error> {
    spec_init_from(f, 0, None)
}

fn try_parse_init_exprmacro(exprmacro: &ExprMacro) -> (res: Option<String>)
    ensures
        res == spec_try_parse_init_exprmacro(*exprmacro),
{
    if let Some(last_path_segment) = exprmacro.path.last_segment() {
        if ident_is(&last_path_segment.ident, "init_transition") {
            return Some(exprmacro.tokens.clone());
        }
    }
    None
}

/// Reads an `init` function: the target of the first statement that is
/// `init_transition!(Target)` or `return init_transition!(Target)`, and the source text of
/// the statement just before it (`None` if it is the first). Without such a statement, the
/// error `MissingInitTranCall` at the function.
pub fn parse_init_fn(fn_: &ImplItemFn) -> (res: Result<(String, Option<String>), Error>)
    ensures
        res == spec_parse_init_fn(*fn_),
{
    let stmts = &fn_.block.stmts;
    let mut action: Option<String> = None;
    let mut i: usize = 0;
    while i < stmts.len()
        invariant
            stmts == &fn_.block.stmts,
            i <= stmts@.len(),
            spec_init_from(*fn_, 0, None) == spec_init_from(*fn_, i as int, action),
        decreases stmts@.len() - i,
    {
        let stmt = &stmts[i];
        if let StmtKind::Expr(expr) = &stmt.kind {
            match &expr.kind {
                ExprKind::Macro(exprmacro) => {
                    if let Some(target_state_tag) = try_parse_init_exprmacro(exprmacro) {
                        return Ok((target_state_tag, action));
                    }
                },
                ExprKind::Return(expreturn) => {
                    if let Some(expr) = expreturn {
                        if let ExprKind::Macro(exprmacro) = &expr.kind {
                            if let Some(target_state_tag) = try_parse_init_exprmacro(exprmacro) {
                                return Ok((target_state_tag, action));
                            }
                        }
                    }
                },
                _ => {},
            }
        }
        action = clone_opt_string(&stmt.text);
        i = i + 1;
    }
    Err(Error::MissingInitTranCall { line: fn_.span_start.line, col: fn_.span_start.column })
}

} // verus!
