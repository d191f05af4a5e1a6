//! What the readers of a state's functions give, stated over the syntax they read.
use vstd::prelude::*;

use crate::errors::Error;
use crate::model::{opt_str_view, NextView};
use crate::parser::init::{spec_init_from, spec_parse_init_fn};
use crate::parser::spec_get_state_tag;
use crate::parser::spec_parse_entry_or_exit_fn;
use crate::parser::state::handle::{
    spec_arms_from, spec_block_from, spec_handle_from, spec_match_handle_expr, spec_parse_block,
    spec_parse_handle,
};
use crate::parser::state::{spec_fill_state_model, spec_state_items_from, StatePartsView};
use crate::parser::top_state::spec_get_trait_impl_type;
use crate::parser::TraitImplSignatureInfo;
use crate::syntax::{
    Block, ExprKind, ExprMacro, GenericArgument, ImplItem, ImplItemFn, ItemImpl, PathArguments,
    PathArgumentsKind, Stmt, StmtKind, Type,
};

verus! {

// ---------------------------------------------------------------------------
// Init functions
// ---------------------------------------------------------------------------

/// The target of a macro invocation whose path ends in the given name: its tokens.
pub open spec fn macro_target(m: ExprMacro, name: Seq<char>) -> Option<String> {
    if m.path.segments@.len() > 0 && m.path.segments@[m.path.segments@.len() - 1].ident@ == name {
        Some(m.tokens)
    } else {
        None
    }
}

/// The target of the initial transition a statement makes: an expression statement
/// `init_transition!(T)` or `return init_transition!(T)`.
pub open spec fn stmt_init_target(s: Stmt) -> Option<String> {
    match s.kind {
        StmtKind::Expr(e) => match e.kind {
            ExprKind::Macro(m) => macro_target(m, "init_transition"@),
            ExprKind::Return(Some(inner)) => match inner.kind {
                ExprKind::Macro(m) => macro_target(m, "init_transition"@),
                _ => None,
            },
            _ => None,
        },
        _ => None,
    }
}

proof fn lemma_init_from(f: ImplItemFn, i: int, k: int, action: Option<String>)
    requires
        0 <= i <= k < f.block.stmts@.len(),
        stmt_init_target(f.block.stmts@[k]) is Some,
        forall|j: int| i <= j < k ==> #[trigger] stmt_init_target(f.block.stmts@[j]) is None,
    ensures
        spec_init_from(f, i, action) == Ok::<(String, Option<String>), Error>(
            (
                stmt_init_target(f.block.stmts@[k]).unwrap(),
                if i == k {
                    action
                } else {
                    f.block.stmts@[k - 1].text
                },
            ),
        ),
    decreases k - i,
{
    assert(stmt_init_target(f.block.stmts@[i]) == crate::parser::init::spec_init_transition_in(
        f.block.stmts@[i].kind,
    ));
    if i < k {
        lemma_init_from(f, i + 1, k, f.block.stmts@[i].text);
    }
}

proof fn lemma_init_from_none(f: ImplItemFn, i: int, action: Option<String>)
    requires
        0 <= i <= f.block.stmts@.len(),
        forall|j: int| i <= j < f.block.stmts@.len() ==> #[trigger] stmt_init_target(f.block.stmts@[j]) is None,
    ensures
        spec_init_from(f, i, action) == Err::<(String, Option<String>), Error>(
            Error::MissingInitTranCall { line: f.span_start.line, col: f.span_start.column },
        ),
    decreases f.block.stmts@.len() - i,
{
    if i < f.block.stmts@.len() {
        assert(stmt_init_target(f.block.stmts@[i]) == crate::parser::init::spec_init_transition_in(
            f.block.stmts@[i].kind,
        ));
        lemma_init_from_none(f, i + 1, f.block.stmts@[i].text);
    }
}

/// Reading an `init` function whose `k`-th statement is its first initial transition gives
/// that transition's target, and as the action the source text of the statement just
/// before it, whatever kind of statement that is (`let`, item, macro or expression); no
/// action where the transition is the first statement.
pub proof fn law_init_action_is_statement_before_transition(f: ImplItemFn, k: int)
    requires
        0 <= k < f.block.stmts@.len(),
        stmt_init_target(f.block.stmts@[k]) is Some,
        forall|j: int| 0 <= j < k ==> #[trigger] stmt_init_target(f.block.stmts@[j]) is None,
    ensures
        spec_parse_init_fn(f) == Ok::<(String, Option<String>), Error>(
            (
                stmt_init_target(f.block.stmts@[k]).unwrap(),
                if k == 0 {
                    None
                } else {
                    f.block.stmts@[k - 1].text
                },
            ),
        ),
{
    lemma_init_from(f, 0, k, None);
}

/// Reading an `init` function with no initial transition is a `MissingInitTranCall` error
/// at the function.
pub proof fn law_init_without_transition(f: ImplItemFn)
    requires
        forall|j: int| 0 <= j < f.block.stmts@.len() ==> #[trigger] stmt_init_target(f.block.stmts@[j]) is None,
    ensures
        spec_parse_init_fn(f) == Err::<(String, Option<String>), Error>(
            Error::MissingInitTranCall { line: f.span_start.line, col: f.span_start.column },
        ),
{
    lemma_init_from_none(f, 0, None);
}

// ---------------------------------------------------------------------------
// Handler blocks
// ---------------------------------------------------------------------------

/// The action a plain statement gives: for an expression statement that is a plain
/// expression (no `if`, macro, `return` or block), the source text of the expression, which
/// must be known; for any statement other than an expression statement, the source text of
/// the statement, if known. `None` for a statement that is not plain.
pub open spec fn plain_action(s: Stmt) -> Option<Option<Seq<char>>> {
    match s.kind {
        StmtKind::Expr(e) => if (e.kind is Other || e.kind is Path || e.kind is Match) && e.text is Some {
            Some(Some(e.text.unwrap()@))
        } else {
            None
        },
        _ => Some(opt_str_view(s.text)),
    }
}

/// Where a statement leads: an expression statement `transition!(T)` or `return
/// transition!(T)` leads to `T`; `handled!()` or `return handled!()` leads to `Handled`.
pub open spec fn stmt_leads_to(s: Stmt) -> Option<NextView> {
    let mac = match s.kind {
        StmtKind::Expr(e) => match e.kind {
            ExprKind::Macro(m) => Some(m),
            ExprKind::Return(Some(inner)) => match inner.kind {
                ExprKind::Macro(m) => Some(m),
                _ => None,
            },
            _ => None,
        },
        _ => None,
    };
    match mac {
        Some(m) => if macro_target(m, "transition"@) is Some {
            Some(NextView::Target(m.tokens@))
        } else if macro_target(m, "handled"@) is Some {
            Some(NextView::Handled)
        } else {
            None
        },
        None => None,
    }
}

proof fn lemma_block_from(b: Block, i: int, k: int, acc: Option<Seq<char>>)
    requires
        0 <= i <= k < b.stmts@.len(),
        stmt_leads_to(b.stmts@[k]) is Some,
        forall|j: int| i <= j < k ==> #[trigger] plain_action(b.stmts@[j]) is Some,
    ensures
        spec_block_from(b, i, acc) == Some(
            (
                stmt_leads_to(b.stmts@[k]).unwrap(),
                if i == k {
                    acc
                } else {
                    plain_action(b.stmts@[k - 1]).unwrap()
                },
            ),
        ),
    decreases k - i,
{
    let s = b.stmts@[i];
    if i < k {
        assert(plain_action(s) is Some);
        let a = plain_action(s).unwrap();
        match s.kind {
            StmtKind::Expr(e) => {
                assert(spec_match_handle_expr(e) == Some(
                    crate::parser::state::handle::StatementView::Action(e.text.unwrap()@),
                ));
            },
            _ => {},
        }
        lemma_block_from(b, i + 1, k, a);
    } else {
        reveal_strlit("init_transition");
        reveal_strlit("transition");
        reveal_strlit("handled");
        // The three macro names differ.
        assert("init_transition"@.len() == 15);
        assert("transition"@.len() == 10);
        assert("handled"@.len() == 7);
        match s.kind {
            StmtKind::Expr(e) => {
                match e.kind {
                    ExprKind::Macro(m) => {
                        assert(spec_match_handle_expr(e) == Some(
                            crate::parser::state::handle::StatementView::Next(
                                stmt_leads_to(s).unwrap(),
                            ),
                        ));
                    },
                    ExprKind::Return(r) => {
                        assert(spec_match_handle_expr(e) == Some(
                            crate::parser::state::handle::StatementView::Next(
                                stmt_leads_to(s).unwrap(),
                            ),
                        ));
                    },
                    _ => {},
                }
            },
            _ => {},
        }
    }
}

/// In a handler block whose `k`-th statement is `transition!(T)` or `handled!()` (bare or
/// returned) and whose statements before it are all plain (see `plain_action`), what
/// follows is where that statement leads, and the last action is the one given by the
/// statement just before it: each action replaces the one before; no action where the
/// transition is the first statement. Statements after it are not read.
pub proof fn law_block_last_action_before_transition(b: Block, k: int)
    requires
        0 <= k < b.stmts@.len(),
        stmt_leads_to(b.stmts@[k]) is Some,
        forall|j: int| 0 <= j < k ==> #[trigger] plain_action(b.stmts@[j]) is Some,
    ensures
        spec_parse_block(b) == Some(
            (
                stmt_leads_to(b.stmts@[k]).unwrap(),
                if k == 0 {
                    None
                } else {
                    plain_action(b.stmts@[k - 1]).unwrap()
                },
            ),
        ),
{
    lemma_block_from(b, 0, k, None);
}

// ---------------------------------------------------------------------------
// State implementations and their `handle` function
// ---------------------------------------------------------------------------

/// Whether an item is a function of the given name.
pub open spec fn item_is_fn_named(item: ImplItem, name: Seq<char>) -> bool {
    match item {
        ImplItem::Fn(f) => f.ident@ == name,
        _ => false,
    }
}

/// Whether an `impl` block has a function named `handle` among its items from the `i`-th on.
pub open spec fn has_handle_from(trait_impl: ItemImpl, i: int) -> bool {
    exists|j: int|
        i <= j < trait_impl.items@.len() && #[trigger] item_is_fn_named(trait_impl.items@[j], "handle"@)
}

proof fn lemma_init_from_error(f: ImplItemFn, i: int, action: Option<String>)
    ensures
        spec_init_from(f, i, action) matches Err(e) ==> e == (Error::MissingInitTranCall {
            line: f.span_start.line,
            col: f.span_start.column,
        }),
    decreases f.block.stmts@.len() - i,
{
    if 0 <= i < f.block.stmts@.len() {
        lemma_init_from_error(f, i + 1, f.block.stmts@[i].text);
    }
}

proof fn lemma_arms_from_error(arms: Seq<crate::syntax::Arm>, j: int, acc: Seq<crate::model::CatcherView>)
    ensures
        spec_arms_from(arms, j, acc) matches Some(Err(e)) ==> e is InvalidEvtMatch,
    decreases arms.len() - j,
{
    if 0 <= j < arms.len() {
        match arms[j].pat {
            crate::syntax::Pat::Path(p, pos) => {
                let n = p.segments@.len();
                if n >= 2 {
                    match crate::parser::state::handle::spec_parse_match_arm_body(*arms[j].body) {
                        Some((next, action)) => lemma_arms_from_error(
                            arms,
                            j + 1,
                            acc.push(
                                crate::model::CatcherView {
                                    evt_type_name: p.segments@[n - 2].ident@,
                                    evt_variant_name: p.segments@[n - 1].ident@,
                                    action,
                                    next,
                                },
                            ),
                        ),
                        None => {},
                    }
                }
            },
            crate::syntax::Pat::Other => lemma_arms_from_error(arms, j + 1, acc),
            crate::syntax::Pat::Wild => {},
        }
    }
}

proof fn lemma_handle_from_error(f: ImplItemFn, i: int, acc: Seq<crate::model::CatcherView>)
    ensures
        spec_handle_from(f, i, acc) matches Some(Err(e)) ==> e is InvalidEvtMatch,
    decreases f.block.stmts@.len() - i,
{
    if 0 <= i < f.block.stmts@.len() {
        match f.block.stmts@[i].kind {
            StmtKind::Expr(e) => match e.kind {
                ExprKind::Match(m) => {
                    lemma_arms_from_error(m.arms@, 0, acc);
                    match spec_arms_from(m.arms@, 0, acc) {
                        Some(Ok(acc2)) => lemma_handle_from_error(f, i + 1, acc2),
                        _ => {},
                    }
                    lemma_handle_from_error(f, i + 1, acc);
                },
                _ => lemma_handle_from_error(f, i + 1, acc),
            },
            _ => lemma_handle_from_error(f, i + 1, acc),
        }
    }
}

proof fn lemma_state_items_from(trait_impl: ItemImpl, i: int, parts: StatePartsView)
    requires
        0 <= i <= trait_impl.items@.len(),
    ensures
        spec_state_items_from(trait_impl, i, parts) matches Some(Ok(p)) ==> (p.handler is Some <==> (
        parts.handler is Some || has_handle_from(trait_impl, i))),
        spec_state_items_from(trait_impl, i, parts) matches Some(Err(e)) ==> (e is MissingInitTranCall
            || e is InvalidEvtMatch),
    decreases trait_impl.items@.len() - i,
{
    if i < trait_impl.items@.len() {
        let item = trait_impl.items@[i];
        if has_handle_from(trait_impl, i + 1) {
            let j = choose|j: int|
                i + 1 <= j < trait_impl.items@.len() && #[trigger] item_is_fn_named(
                    trait_impl.items@[j],
                    "handle"@,
                );
            assert(item_is_fn_named(trait_impl.items@[j], "handle"@));
        }
        if item_is_fn_named(item, "handle"@) {
            assert(item_is_fn_named(trait_impl.items@[i], "handle"@));
        }
        if has_handle_from(trait_impl, i) && !item_is_fn_named(item, "handle"@) {
            let j = choose|j: int|
                i <= j < trait_impl.items@.len() && #[trigger] item_is_fn_named(
                    trait_impl.items@[j],
                    "handle"@,
                );
            assert(j != i);
            assert(has_handle_from(trait_impl, i + 1));
        }
        match item {
            ImplItem::Fn(f) => {
                if f.ident@ == "init"@ {
                    lemma_init_from_error(f, 0, None);
                    match spec_parse_init_fn(f) {
                        Ok((target, action)) => lemma_state_items_from(
                            trait_impl,
                            i + 1,
                            StatePartsView {
                                init: Some(
                                    crate::model::InitView {
                                        action: opt_str_view(action),
                                        target: target@,
                                    },
                                ),
                                ..parts
                            },
                        ),
                        Err(_) => {},
                    }
                    reveal_strlit("init");
                    reveal_strlit("handle");
                    assert("init"@.len() == 4);
                    assert("handle"@.len() == 6);
                } else if f.ident@ == "entry"@ {
                    reveal_strlit("entry");
                    reveal_strlit("handle");
                    assert("entry"@.len() == 5);
                    assert("handle"@.len() == 6);
                    lemma_state_items_from(
                        trait_impl,
                        i + 1,
                        StatePartsView {
                            entry: Some(
                                crate::model::EntryView {
                                    action: opt_str_view(spec_parse_entry_or_exit_fn(f)),
                                },
                            ),
                            ..parts
                        },
                    );
                } else if f.ident@ == "exit"@ {
                    reveal_strlit("exit");
                    reveal_strlit("handle");
                    assert("exit"@.len() == 4);
                    assert("handle"@.len() == 6);
                    lemma_state_items_from(
                        trait_impl,
                        i + 1,
                        StatePartsView {
                            exit: Some(
                                crate::model::ExitView {
                                    action: opt_str_view(spec_parse_entry_or_exit_fn(f)),
                                },
                            ),
                            ..parts
                        },
                    );
                } else if f.ident@ == "handle"@ {
                    lemma_handle_from_error(f, 0, Seq::empty());
                    match spec_parse_handle(f) {
                        Some(Ok(h)) => lemma_state_items_from(
                            trait_impl,
                            i + 1,
                            StatePartsView { handler: Some(h), ..parts },
                        ),
                        _ => {},
                    }
                } else {
                    lemma_state_items_from(trait_impl, i + 1, parts);
                }
            },
            _ => lemma_state_items_from(trait_impl, i + 1, parts),
        }
    }
}

/// Reading a `State` implementation is a `MissingEvtHandler` error (at the implementation)
/// exactly where it has no function named `handle` and reading its `init` function and
/// event handler gives no error: a `handle` function that catches no event at all is no
/// error. Any other error comes from reading `init` (`MissingInitTranCall`) or `handle`
/// (`InvalidEvtMatch`).
pub proof fn law_missing_evt_handler_iff_no_handle_function(
    trait_impl: ItemImpl,
    state_tag: Seq<char>,
    m: crate::model::StateMachineView,
)
    requires
        spec_fill_state_model(trait_impl, state_tag, m) is Some,
    ensures
        ({
            let r = spec_fill_state_model(trait_impl, state_tag, m).unwrap().1;
            &&& r matches Err(e) ==> (e is MissingEvtHandler || e is MissingInitTranCall
                || e is InvalidEvtMatch)
            &&& r matches Err(Error::MissingEvtHandler { .. }) ==> !has_handle_from(trait_impl, 0)
                && r == Err::<(), Error>(
                Error::MissingEvtHandler {
                    line: trait_impl.span_start.line,
                    col: trait_impl.span_start.column,
                },
            )
            &&& !has_handle_from(trait_impl, 0) ==> r is Err
            &&& has_handle_from(trait_impl, 0) && spec_state_items_from(
                trait_impl,
                0,
                StatePartsView::empty(),
            ) is Some && spec_state_items_from(trait_impl, 0, StatePartsView::empty()).unwrap() is Ok
                ==> r is Ok
        }),
{
    lemma_state_items_from(trait_impl, 0, StatePartsView::empty());
}

// ---------------------------------------------------------------------------
// Entry and exit actions
// ---------------------------------------------------------------------------

/// The action of an entry or exit function with a non-empty body is the source text of its
/// last statement; with an empty body there is none.
pub proof fn law_entry_or_exit_action_is_last_statement(f: ImplItemFn)
    ensures
        f.block.stmts@.len() > 0 ==> spec_parse_entry_or_exit_fn(f) == f.block.stmts@[f.block.stmts@.len()
            - 1].text,
        f.block.stmts@.len() == 0 ==> spec_parse_entry_or_exit_fn(f) is None,
{
}

// ---------------------------------------------------------------------------
// State tags and state machine names
// ---------------------------------------------------------------------------

/// The type path given as the first generic argument, where it is one.
pub open spec fn first_type_path_argument(path_argument: PathArguments) -> Option<crate::syntax::Path> {
    match path_argument.kind {
        PathArgumentsKind::AngleBracketed(args) => if args@.len() > 0 {
            match args@[0] {
                GenericArgument::Type(Type::Path(p)) => Some(p),
                _ => None,
            }
        } else {
            None
        },
        _ => None,
    }
}

/// The tag of `State<P>`, where `P` is a type path with segments, is the identifier of the
/// last segment of `P`: `State<states::Idle>` names the state `Idle`.
pub proof fn law_state_tag_is_last_segment(path_argument: PathArguments)
    requires
        first_type_path_argument(path_argument) is Some,
        first_type_path_argument(path_argument).unwrap().segments@.len() > 0,
    ensures
        ({
            let p = first_type_path_argument(path_argument).unwrap();
            spec_get_state_tag(path_argument) == Some(
                Ok::<String, Error>(p.segments@[p.segments@.len() - 1].ident),
            )
        }),
{
}

/// An `impl a::State<b::Tag> for c::Machine` (trait path starting with `State`, tag and
/// implementing type given as type paths with segments) is a state implementation whose
/// tag is the last segment of the tag's path and whose state machine is the last segment of
/// the implementing type's path.
pub proof fn law_state_impl_names(
    trait_impl: ItemImpl,
    trait_path: crate::syntax::Path,
    tag_path: crate::syntax::Path,
    machine_path: crate::syntax::Path,
)
    requires
        trait_impl.trait_ == Some(trait_path),
        trait_path.segments@.len() > 0,
        trait_path.segments@[0].ident@ == "State"@,
        first_type_path_argument(trait_path.segments@[0].arguments) == Some(tag_path),
        tag_path.segments@.len() > 0,
        trait_impl.self_ty == Type::Path(machine_path),
        machine_path.segments@.len() > 0,
    ensures
        spec_get_trait_impl_type(trait_impl) == Some(
            Ok::<TraitImplSignatureInfo, Error>(
                TraitImplSignatureInfo::State {
                    state_tag: tag_path.segments@[tag_path.segments@.len() - 1].ident,
                    state_machine_name: machine_path.segments@[machine_path.segments@.len() - 1].ident,
                },
            ),
        ),
{
}

} // verus!
