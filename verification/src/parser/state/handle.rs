//! Parsing of the `handle` function of a `State` implementation: the `match`
//! on the event, and for each arm the actions and the transition it makes.
use vstd::prelude::*;

use crate::errors::Error;
use crate::model::{
    branches_view, catchers_view, lemma_branches_view_len, lemma_catchers_view_len,
    opt_str_view, BranchView, CatcherView, Condition, ConditionalBranch, EvtCatcher, EvtHandler,
    Next, NextView, TransitionTarget,
};
use crate::parser::{clone_opt_string, ident_is};
use crate::syntax::{
    spec_path_ident, Arm, Block, Expr, ExprIf, ExprKind, ExprMacro, ExprMatch, ImplItemFn, Pat,
    StmtKind,
};

verus! {

/// What a macro invocation in a handler stands for, by the last segment of its path.
#[derive(Debug, PartialEq, Eq)]
pub enum MacroType {
    InitTransition { target: String },
    Transition { target: String },
    Handled,
    Ignored,
    Other,
}

/// What one statement of a handler block contributes.
#[derive(Debug, PartialEq, Eq)]
pub enum StatementType {
    /// An action: the source text of a statement that neither transitions nor branches.
    Action(String),
    /// What follows: a transition, `handled!`, or a condition.
    Next(Next),
    /// A nested block: what follows in it and its last action.
    Block(Next, Option<String>),
}

pub enum StatementView {
    Action(Seq<char>),
    Next(NextView),
    Block(NextView, Option<Seq<char>>),
}

pub open spec fn statement_view(s: StatementType) -> StatementView {
    match s {
        StatementType::Action(a) => StatementView::Action(a@),
        StatementType::Next(n) => StatementView::Next(n@),
        StatementType::Block(n, a) => StatementView::Block(n@, opt_str_view(a)),
    }
}

/// The macro type of an invocation; `None` where its path is empty.
pub open spec fn spec_macro_type(m: ExprMacro) -> Option<MacroType> {
    if m.path.segments@.len() == 0 {
        None
    } else {
        let id = m.path.segments@.last().ident@;
        Some(
            if id == "init_transition"@ {
                MacroType::InitTransition { target: m.tokens }
            } else if id == "transition"@ {
                MacroType::Transition { target: m.tokens }
            } else if id == "handled"@ {
                MacroType::Handled
            } else if id == "ignored"@ {
                MacroType::Ignored
            } else {
                MacroType::Other
            },
        )
    }
}

/// What a `transition!(S)` or `handled!()` invocation leads to; `None` for any other macro.
pub open spec fn spec_match_exprmacro(m: ExprMacro) -> Option<NextView> {
    match spec_macro_type(m) {
        Some(MacroType::Transition { target }) => Some(NextView::Target(target@)),
        Some(MacroType::Handled) => Some(NextView::Handled),
        _ => None,
    }
}

/// What an expression statement of a handler contributes; `None` where it is not one that
/// a handler may hold.
pub open spec fn spec_match_handle_expr(e: Expr) -> Option<StatementView>
    decreases e, 0nat,
{
    match e.kind {
        ExprKind::If(c) => match spec_parse_condition(c) {
            Some(bs) => Some(StatementView::Next(NextView::Condition(bs))),
            None => None,
        },
        ExprKind::Macro(m) => match spec_match_exprmacro(m) {
            Some(n) => Some(StatementView::Next(n)),
            None => None,
        },
        ExprKind::Return(r) => match r {
            Some(inner) => match inner.kind {
                ExprKind::Macro(m) => match spec_match_exprmacro(m) {
                    Some(n) => Some(StatementView::Next(n)),
                    None => None,
                },
                _ => None,
            },
            None => None,
        },
        ExprKind::Block(b) => match spec_parse_block(b) {
            Some((n, a)) => Some(StatementView::Block(n, a)),
            None => None,
        },
        _ => match e.text {
            Some(t) => Some(StatementView::Action(t@)),
            None => None,
        },
    }
}

/// What follows a block and its last action: the statements are read in order until one
/// leads somewhere; each action read before replaces the last action.
pub open spec fn spec_parse_block(b: Block) -> Option<(NextView, Option<Seq<char>>)>
    decreases b, b.stmts@.len() + 1,
{
    spec_block_from(b, 0, None)
}

/// `spec_parse_block` from the `i`-th statement on, with `acc` the last action so far.
pub open spec fn spec_block_from(b: Block, i: int, acc: Option<Seq<char>>) -> Option<
    (NextView, Option<Seq<char>>),
>
    decreases b, b.stmts@.len() - i,
{
    if i < 0 || i >= b.stmts@.len() {
        Some((NextView::Unterminated, acc))
    } else {
        match b.stmts@[i].kind {
            StmtKind::Expr(e) => match spec_match_handle_expr(e) {
                None => None,
                Some(StatementView::Action(a)) => spec_block_from(b, i + 1, Some(a)),
                Some(StatementView::Next(n)) => Some((n, acc)),
                Some(StatementView::Block(n, a)) => {
                    let acc2 = if a is Some {
                        a
                    } else {
                        acc
                    };
                    if n is Unterminated {
                        spec_block_from(b, i + 1, acc2)
                    } else {
                        Some((n, a))
                    }
                },
            },
            _ => spec_block_from(b, i + 1, opt_str_view(b.stmts@[i].text)),
        }
    }
}

/// The branches of an `if` chain: the guarded branch where the condition has source text,
/// then the `else` block as a branch with guard `else`, or the branches of an `else if`.
pub open spec fn spec_parse_condition(c: ExprIf) -> Option<Seq<BranchView>>
    decreases c, 0nat,
{
    let first: Option<Seq<BranchView>> = match c.cond.text {
        Some(g) => match spec_parse_block(c.then_branch) {
            Some((n, a)) => Some(seq![BranchView { guard: g@, action: a, next: n }]),
            None => None,
        },
        None => Some(Seq::empty()),
    };
    match first {
        None => None,
        Some(f) => match c.else_branch {
            None => Some(f),
            Some(e) => match e.kind {
                ExprKind::Block(b) => match spec_parse_block(b) {
                    Some((n, a)) => Some(f.push(BranchView { guard: "else"@, action: a, next: n })),
                    None => None,
                },
                ExprKind::If(c2) => match spec_parse_condition(c2) {
                    Some(rest) => Some(f + rest),
                    None => None,
                },
                _ => None,
            },
        },
    }
}

/// What follows a match arm and its last action; the body must be a block.
pub open spec fn spec_parse_match_arm_body(e: Expr) -> Option<(NextView, Option<Seq<char>>)> {
    match e.kind {
        ExprKind::Block(b) => spec_parse_block(b),
        _ => None,
    }
}

/// Whether a `match` is on the plain identifier `evt`.
pub open spec fn spec_is_evt_match(m: ExprMatch) -> bool {
    match m.expr.kind {
        ExprKind::Path(p) => match spec_path_ident(p) {
            Some(id) => id@ == "evt"@,
            None => false,
        },
        _ => false,
    }
}

/// The event catchers of the arms of an event match from the `j`-th arm on, appended to
/// `acc`: a `_` arm ends the match, an arm `EvtType::Variant` adds a catcher, an arm with a
/// shorter path is an error, and any other arm is skipped.
pub open spec fn spec_arms_from(arms: Seq<Arm>, j: int, acc: Seq<CatcherView>) -> Option<
    Result<Seq<CatcherView>, Error>,
>
    decreases arms.len() - j,
{
    if j < 0 || j >= arms.len() {
        Some(Ok(acc))
    } else {
        match arms[j].pat {
            Pat::Wild => Some(Ok(acc)),
            Pat::Path(p, pos) => {
                let n = p.segments@.len();
                if n >= 2 {
                    match spec_parse_match_arm_body(*arms[j].body) {
                        Some((next, action)) => spec_arms_from(
                            arms,
                            j + 1,
                            acc.push(
                                CatcherView {
                                    evt_type_name: p.segments@[n - 2].ident@,
                                    evt_variant_name: p.segments@[n - 1].ident@,
                                    action,
                                    next,
                                },
                            ),
                        ),
                        None => None,
                    }
                } else {
                    Some(Err(Error::InvalidEvtMatch { line: pos.line, col: pos.column }))
                }
            },
            Pat::Other => spec_arms_from(arms, j + 1, acc),
        }
    }
}

/// The event catchers of a handler body from the `i`-th statement on, appended to `acc`:
/// each `match evt { .. }` statement adds the catchers of its arms.
pub open spec fn spec_handle_from(f: ImplItemFn, i: int, acc: Seq<CatcherView>) -> Option<
    Result<Seq<CatcherView>, Error>,
>
    decreases f.block.stmts@.len() - i,
{
    if i < 0 || i >= f.block.stmts@.len() {
        Some(Ok(acc))
    } else {
        match f.block.stmts@[i].kind {
            StmtKind::Expr(e) => match e.kind {
                ExprKind::Match(m) => if spec_is_evt_match(m) {
                    match spec_arms_from(m.arms@, 0, acc) {
                        Some(Ok(acc2)) => spec_handle_from(f, i + 1, acc2),
                        other => other,
                    }
                } else {
                    spec_handle_from(f, i + 1, acc)
                },
                _ => spec_handle_from(f, i + 1, acc),
            },
            _ => spec_handle_from(f, i + 1, acc),
        }
    }
}

/// The event catchers of a `handle` function, in order; `None` where an arm body is not
/// one that a handler may hold.
pub open spec fn spec_parse_handle(f: ImplItemFn) -> Option<Result<Seq<CatcherView>, Error>> {
    spec_handle_from(f, 0, Seq::empty())
}

fn try_parse_exprmacro(exprmacro: &ExprMacro) -> (res: Option<MacroType>)
    ensures
        res == spec_macro_type(*exprmacro),
{
    match exprmacro.path.last_segment() {
        None => None,
        Some(last_path_segment) => {
            let ident = &last_path_segment.ident;
            if ident_is(ident, "init_transition") {
                Some(MacroType::InitTransition { target: exprmacro.tokens.clone() })
            } else if ident_is(ident, "transition") {
                Some(MacroType::Transition { target: exprmacro.tokens.clone() })
            } else if ident_is(ident, "handled") {
                Some(MacroType::Handled)
            } else if ident_is(ident, "ignored") {
                Some(MacroType::Ignored)
            } else {
                Some(MacroType::Other)
            }
        },
    }
}

fn match_exprmacro(exprmacro: &ExprMacro) -> (res: Option<Next>)
    ensures
        match res {
            Some(n) => spec_match_exprmacro(*exprmacro) == Some(n@),
            None => spec_match_exprmacro(*exprmacro) is None,
        },
{
    match try_parse_exprmacro(exprmacro) {
        Some(MacroType::Transition { target }) => {
            Some(Next::Target(TransitionTarget { state_name: target }))
        },
        Some(MacroType::Handled) => Some(Next::Handled()),
        _ => None,
    }
}

fn match_handle_expr(expr: &Expr) -> (res: Option<StatementType>)
    ensures
        match res {
            Some(s) => spec_match_handle_expr(*expr) == Some(statement_view(s)),
            None => spec_match_handle_expr(*expr) is None,
        },
    decreases expr, 0nat,
{
    match &expr.kind {
        ExprKind::If(ifexpr) => match parse_condition(ifexpr) {
            Some(condition) => Some(StatementType::Next(Next::Condition(condition))),
            None => None,
        },
        ExprKind::Macro(exprmacro) => match match_exprmacro(exprmacro) {
            Some(next) => Some(StatementType::Next(next)),
            None => None,
        },
        ExprKind::Return(r) => match r {
            Some(inner) => match &inner.kind {
                ExprKind::Macro(exprmacro) => match match_exprmacro(exprmacro) {
                    Some(next) => Some(StatementType::Next(next)),
                    None => None,
                },
                _ => None,
            },
            None => None,
        },
        ExprKind::Block(block) => match try_parse_block(block) {
            Some((branch, action)) => Some(StatementType::Block(branch, action)),
            None => None,
        },
        _ => match &expr.text {
            Some(t) => Some(StatementType::Action(t.clone())),
            None => None,
        },
    }
}

/// `parse_block`, or `None` where a statement is not one that a handler may hold.
pub fn try_parse_block(body: &Block) -> (res: Option<(Next, Option<String>)>)
    ensures
        match res {
            Some((n, a)) => spec_parse_block(*body) == Some((n@, opt_str_view(a))),
            None => spec_parse_block(*body) is None,
        },
    decreases body, body.stmts@.len() + 1,
{
    let stmts = &body.stmts;
    let mut block_action: Option<String> = None;
    let mut i: usize = 0;
    while i < stmts.len()
        invariant
            stmts == &body.stmts,
            i <= stmts@.len(),
            spec_block_from(*body, 0, None) == spec_block_from(
                *body,
                i as int,
                opt_str_view(block_action),
            ),
        decreases stmts@.len() - i,
    {
        let stmt = &stmts[i];
        match &stmt.kind {
            StmtKind::Expr(expr) => {
                match match_handle_expr(expr) {
                    None => {
                        return None;
                    },
                    Some(StatementType::Action(action)) => {
                        block_action = Some(action);
                    },
                    Some(StatementType::Next(next)) => {
                        return Some((next, block_action));
                    },
                    Some(StatementType::Block(branch, action)) => {
                        if action.is_some() {
                            block_action = clone_opt_string(&action);
                        }
                        match branch {
                            Next::Unterminated() => {},
                            _ => {
                                return Some((branch, action));
                            },
                        }
                    },
                }
            },
            _ => {
                block_action = clone_opt_string(&stmt.text);
            },
        }
        i = i + 1;
    }
    Some((Next::Unterminated(), block_action))
}

fn parse_condition(if_expr: &ExprIf) -> (res: Option<Condition>)
    ensures
        match res {
            Some(c) => spec_parse_condition(*if_expr) == Some(branches_view(c.branches@)),
            None => spec_parse_condition(*if_expr) is None,
        },
    decreases if_expr, 0nat,
{
    let mut conditional_branches: Vec<ConditionalBranch> = Vec::new();
    proof {
        lemma_branches_view_len(conditional_branches@);
    }
    if let Some(guard) = &if_expr.cond.text {
        match try_parse_block(&if_expr.then_branch) {
            None => {
                return None;
            },
            Some((branch, action)) => {
                conditional_branches.push(
                    ConditionalBranch { guard: guard.clone(), action, next: branch },
                );
            },
        }
    }
    proof {
        lemma_branches_view_len(conditional_branches@);
    }
    let ghost first = branches_view(conditional_branches@);
    if let Some(else_branch) = &if_expr.else_branch {
        match &else_branch.kind {
            ExprKind::Block(block) => match try_parse_block(block) {
                None => {
                    return None;
                },
                Some((branch, action)) => {
                    conditional_branches.push(
                        ConditionalBranch { guard: "else".to_owned(), action, next: branch },
                    );
                },
            },
            ExprKind::If(ifexpr) => match parse_condition(ifexpr) {
                None => {
                    return None;
                },
                Some(condition) => {
                    let mut rest = condition.branches;
                    proof {
                        lemma_branches_view_len(rest@);
                    }
                    conditional_branches.append(&mut rest);
                },
            },
            _ => {
                return None;
            },
        }
    }
    proof {
        lemma_branches_view_len(conditional_branches@);
    }
    Some(Condition { branches: conditional_branches })
}

/// What follows a handler block and its last action.
///
/// The statements are read in order. An expression statement that is an `if` chain, a
/// `transition!(S)`, a `handled!()` (or a `return` of one of these two) ends the block with
/// what follows it; a nested block that leads somewhere ends it too, with the nested
/// block's own last action. Any other statement is an action and becomes the last action.
/// If no statement leads somewhere, what follows is `Unterminated`.
pub fn parse_block(body: &Block) -> (res: Result<(Next, Option<String>), Error>)
    requires
        spec_parse_block(*body) is Some,
    ensures
        res matches Ok((n, a)) && spec_parse_block(*body) == Some((n@, opt_str_view(a))),
{
    Ok(try_parse_block(body).unwrap())
}

/// `parse_match_arm_body`, or `None` where the body is not a block a handler may hold.
pub fn try_parse_match_arm_body(body: &Expr) -> (res: Option<(Next, Option<String>)>)
    ensures
        match res {
            Some((n, a)) => spec_parse_match_arm_body(*body) == Some((n@, opt_str_view(a))),
            None => spec_parse_match_arm_body(*body) is None,
        },
{
    match &body.kind {
        ExprKind::Block(block) => try_parse_block(block),
        _ => None,
    }
}

/// What follows a match arm and its last action: the arm body must be a block, which is
/// read as `parse_block` reads it.
pub fn parse_match_arm_body(body: &Expr) -> (res: Result<(Next, Option<String>), Error>)
    requires
        spec_parse_match_arm_body(*body) is Some,
    ensures
        res matches Ok((n, a)) && spec_parse_match_arm_body(*body) == Some((n@, opt_str_view(a))),
{
    Ok(try_parse_match_arm_body(body).unwrap())
}

fn is_evt_match(match_: &ExprMatch) -> (res: bool)
    ensures
        res == spec_is_evt_match(*match_),
{
    match &match_.expr.kind {
        ExprKind::Path(path) => match path.get_ident() {
            Some(evt_name) => ident_is(evt_name, "evt"),
            None => false,
        },
        _ => false,
    }
}

proof fn lemma_catchers_view_push(cs: Seq<EvtCatcher>, c: EvtCatcher)
    ensures
        catchers_view(cs.push(c)) == catchers_view(cs).push(c@),
{
    assert(cs.push(c).drop_last() =~= cs);
}

/// `parse_handle`, or `None` where an arm body is not one that a handler may hold.
pub fn try_parse_handle(fn_: &ImplItemFn) -> (res: Option<Result<EvtHandler, Error>>)
    ensures
        match res {
            Some(Ok(h)) => spec_parse_handle(*fn_) == Some(Ok::<Seq<CatcherView>, Error>(h@)),
            Some(Err(e)) => spec_parse_handle(*fn_) == Some(Err::<Seq<CatcherView>, Error>(e)),
            None => spec_parse_handle(*fn_) is None,
        },
{
    let stmts = &fn_.block.stmts;
    let mut evt_handler = EvtHandler::new();
    let mut i: usize = 0;
    while i < stmts.len()
        invariant
            stmts == &fn_.block.stmts,
            i <= stmts@.len(),
            spec_handle_from(*fn_, 0, Seq::empty()) == spec_handle_from(
                *fn_,
                i as int,
                evt_handler@,
            ),
        decreases stmts@.len() - i,
    {
        if let StmtKind::Expr(expr) = &stmts[i].kind {
            if let ExprKind::Match(match_) = &expr.kind {
                if is_evt_match(match_) {
                    let arms = &match_.arms;
                    let ghost acc0 = evt_handler@;
                    let mut j: usize = 0;
                    let mut done = false;
                    while j < arms.len() && !done
                        invariant
                            arms == &match_.arms,
                            j <= arms@.len(),
                            i < stmts@.len(),
                            stmts == &fn_.block.stmts,
                            stmts@[i as int].kind == StmtKind::Expr(*expr),
                            expr.kind == ExprKind::Match(*match_),
                            spec_is_evt_match(*match_),
                            spec_handle_from(*fn_, 0, Seq::empty()) == spec_handle_from(
                                *fn_,
                                i as int,
                                acc0,
                            ),
                            done ==> spec_arms_from(arms@, 0, acc0) == Some(
                                Ok::<Seq<CatcherView>, Error>(evt_handler@),
                            ),
                            !done ==> spec_arms_from(arms@, 0, acc0) == spec_arms_from(
                                arms@,
                                j as int,
                                evt_handler@,
                            ),
                        decreases arms@.len() - j,
                    {
                        let arm = &arms[j];
                        match &arm.pat {
                            Pat::Wild => {
                                done = true;
                            },
                            Pat::Path(path, pos) => {
                                let segments = &path.segments;
                                let n = segments.len();
                                if n >= 2 {
                                    let evt_type_name = segments[n - 2].ident.clone();
                                    let evt_variant_name = segments[n - 1].ident.clone();
                                    match try_parse_match_arm_body(&arm.body) {
                                        None => {
                                            return None;
                                        },
                                        Some((next, action)) => {
                                            let evt_catcher = EvtCatcher {
                                                evt_type_name,
                                                evt_variant_name,
                                                action,
                                                next,
                                            };
                                            proof {
                                                lemma_catchers_view_push(
                                                    evt_handler.evt_catchers@,
                                                    evt_catcher,
                                                );
                                            }
                                            evt_handler.evt_catchers.push(evt_catcher);
                                        },
                                    }
                                } else {
                                    return Some(
                                        Err(Error::InvalidEvtMatch { line: pos.line, col: pos.column }),
                                    );
                                }
                            },
                            Pat::Other => {},
                        }
                        j = j + 1;
                    }
                }
            }
        }
        i = i + 1;
    }
    Some(Ok(evt_handler))
}

/// The events a `handle` function catches.
///
/// Each statement `match evt { .. }` of the body adds, for its arms in order up to the
/// first `_` arm, one catcher per arm whose pattern is a path `.., EvtType, Variant` (with
/// what follows the arm body and its last action, as `parse_match_arm_body` reads it); an
/// arm whose pattern is a path of one segment is an `InvalidEvtMatch` error at the pattern,
/// and arms with other patterns are skipped. Other statements are skipped.
pub fn parse_handle(fn_: &ImplItemFn) -> (res: Result<EvtHandler, Error>)
    requires
        spec_parse_handle(*fn_) is Some,
    ensures
        match res {
            Ok(h) => spec_parse_handle(*fn_) == Some(Ok::<Seq<CatcherView>, Error>(h@)),
            Err(e) => spec_parse_handle(*fn_) == Some(Err::<Seq<CatcherView>, Error>(e)),
        },
{
    try_parse_handle(fn_).unwrap()
}

} // verus!
