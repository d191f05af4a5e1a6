//! Properties of the parser that hold across its operations.
use vstd::prelude::*;

use crate::model::{StateMachineView, StateView, TopStateView};
use crate::parser::state::{spec_fill_state_model, spec_state_items_from, StatePartsView};
use crate::parser::top_state::{
    spec_fill_top_from, spec_fill_top_state_model, spec_get_trait_impl_type,
};
use crate::parser::{
    spec_check_state_machine_ownership, spec_empty_model, spec_fill_top_state_with_target,
    spec_fill_top_with_target_from, spec_parse, spec_parse_items_from, TraitImplSignatureInfo,
};
use crate::syntax::{Item, ItemImpl, SourceFile};

verus! {

/// The tag of an item that is a `State<Tag>` implementation.
pub open spec fn item_state_tag(item: Item) -> Option<String> {
    match item {
        Item::Impl(ti) => match spec_get_trait_impl_type(ti) {
            Some(Ok(TraitImplSignatureInfo::State { state_tag, .. })) => Some(state_tag),
            _ => None,
        },
        Item::Other => None,
    }
}

/// The implementing type of an item that is a `State<Tag>` or `TopState` implementation.
pub open spec fn item_machine_name(item: Item) -> Option<String> {
    match item {
        Item::Impl(ti) => match spec_get_trait_impl_type(ti) {
            Some(Ok(TraitImplSignatureInfo::State { state_machine_name, .. })) => Some(
                state_machine_name,
            ),
            Some(Ok(TraitImplSignatureInfo::TopState { state_machine_name })) => Some(
                state_machine_name,
            ),
            _ => None,
        },
        Item::Other => None,
    }
}

/// Whether an item is a `TopState` implementation.
pub open spec fn item_is_top_state(item: Item) -> bool {
    match item {
        Item::Impl(ti) => spec_get_trait_impl_type(ti) matches Some(
            Ok(TraitImplSignatureInfo::TopState { .. }),
        ),
        Item::Other => false,
    }
}

/// A top state with both an initial transition target and an event type.
pub open spec fn top_state_complete(ts: TopStateView) -> bool {
    ts.init.target.len() > 0 && ts.evt_type_alias is Some
}

/// Once the check for a non-empty name has succeeded, the check for any other name fails:
/// one file describes one state machine.
pub proof fn lemma_ownership_exclusive(m: StateMachineView, first: Seq<char>, second: Seq<char>)
    requires
        first.len() > 0,
        first != second,
        spec_check_state_machine_ownership(m, first).1 is Ok,
    ensures
        spec_check_state_machine_ownership(spec_check_state_machine_ownership(m, first).0, second).1 is Err,
{
}

/// A successful ownership check leaves the model named by the label, and repeating it
/// succeeds and changes nothing more.
pub proof fn lemma_ownership_idempotent(m: StateMachineView, label: Seq<char>)
    requires
        spec_check_state_machine_ownership(m, label).1 is Ok,
    ensures
        spec_check_state_machine_ownership(m, label).0.name == label,
        spec_check_state_machine_ownership(spec_check_state_machine_ownership(m, label).0, label)
            == (spec_check_state_machine_ownership(m, label).0, Ok::<(), crate::errors::ErrorView>(())),
{
}

/// Adding a state by name keeps state names distinct, makes the name present, keeps every
/// state that was there in its place, and adding the same name again changes nothing.
pub proof fn lemma_with_state_named(m: StateMachineView, name: Seq<char>)
    requires
        m.wf(),
    ensures
        m.with_state_named(name).wf(),
        m.with_state_named(name).has_state(name),
        m.with_state_named(name).with_state_named(name) == m.with_state_named(name),
        m.with_state_named(name).name == m.name,
        m.with_state_named(name).top_state == m.top_state,
        m.with_state_named(name).states.len() <= m.states.len() + 1,
        forall|j: int|
            0 <= j < m.states.len() ==> #[trigger] m.with_state_named(name).states[j] == m.states[j],
        forall|n: Seq<char>| m.has_state(n) ==> #[trigger] m.with_state_named(name).has_state(n),
        forall|n: Seq<char>| #[trigger]
            m.with_state_named(name).has_state(n) ==> n == name || m.has_state(n),
{
    let m1 = m.with_state_named(name);
    if !m.has_state(name) {
        assert(m1.states[m.states.len() as int].name == name);
        assert forall|n: Seq<char>| #[trigger] m1.has_state(n) implies n == name || m.has_state(n) by {
            let k = choose|k: int| 0 <= k < m1.states.len() && #[trigger] m1.states[k].name == n;
            if k < m.states.len() {
                assert(m.states[k].name == n);
            }
        }
        assert forall|n: Seq<char>| m.has_state(n) implies #[trigger] m1.has_state(n) by {
            let k = choose|k: int| 0 <= k < m.states.len() && #[trigger] m.states[k].name == n;
            assert(m1.states[k].name == n);
        }
    }
}

/// In a model whose state names are distinct, the state found by name has that name.
proof fn lemma_state_index(m: StateMachineView, name: Seq<char>)
    requires
        m.has_state(name),
    ensures
        0 <= m.state_index(name) < m.states.len(),
        m.states[m.state_index(name)].name == name,
{
}

/// Reading a `State<Tag>` implementation keeps state names distinct, keeps the name and the
/// top state of the model, makes a state named `Tag` present, and leaves every state with
/// another name as it was.
pub proof fn lemma_fill_state_model_keeps_states(
    trait_impl: ItemImpl,
    state_tag: Seq<char>,
    m: StateMachineView,
    m2: StateMachineView,
    r: Result<(), crate::errors::Error>,
)
    requires
        m.wf(),
        spec_fill_state_model(trait_impl, state_tag, m) == Some((m2, r)),
    ensures
        m2.wf(),
        m2.has_state(state_tag),
        m2.name == m.name,
        m2.top_state == m.top_state,
        forall|n: Seq<char>| m.has_state(n) ==> #[trigger] m2.has_state(n),
        forall|n: Seq<char>| #[trigger] m2.has_state(n) ==> n == state_tag || m.has_state(n),
        forall|j: int|
            0 <= j < m.states.len() && #[trigger] m.states[j].name != state_tag ==> m2.states[j]
                == m.states[j],
{
    lemma_with_state_named(m, state_tag);
    let m1 = m.with_state_named(state_tag);
    match spec_state_items_from(trait_impl, 0, StatePartsView::empty()) {
        Some(Ok(p)) => {
            lemma_state_index(m1, state_tag);
            let k = m1.state_index(state_tag);
            assert(m2.states.len() == m1.states.len());
            assert forall|j: int| 0 <= j < m2.states.len() implies #[trigger] m2.states[j].name
                == m1.states[j].name by {}
            assert forall|n: Seq<char>| #[trigger] m2.has_state(n) implies m1.has_state(n) by {
                let j = choose|j: int| 0 <= j < m2.states.len() && #[trigger] m2.states[j].name == n;
                assert(m1.states[j].name == n);
            }
            assert forall|n: Seq<char>| #[trigger] m1.has_state(n) implies m2.has_state(n) by {
                let j = choose|j: int| 0 <= j < m1.states.len() && #[trigger] m1.states[j].name == n;
                assert(m2.states[j].name == n);
            }
            assert(m2.states[k].name == state_tag);
            assert forall|j: int|
                0 <= j < m.states.len() && #[trigger] m.states[j].name != state_tag implies m2.states[j]
                == m.states[j] by {
                assert(m1.states[j] == m.states[j]);
                assert(j != k);
            }
        },
        _ => {},
    }
}

/// When reading a `TopState` implementation succeeds, the top state is complete.
pub proof fn lemma_fill_top_state_complete(trait_impl: ItemImpl, i: int, ts: TopStateView)
    requires
        spec_fill_top_from(trait_impl, i, ts).1 is Ok,
    ensures
        top_state_complete(spec_fill_top_from(trait_impl, i, ts).0),
    decreases trait_impl.items@.len() - i,
{
    if i < 0 || i >= trait_impl.items@.len() {
    } else {
        let (ts2, _) = spec_fill_top_from(trait_impl, i, ts);
        match trait_impl.items@[i] {
            crate::syntax::ImplItem::Type(t) => {
                match crate::parser::top_state::spec_parse_top_state_associated_type(t) {
                    Ok(alias) => lemma_fill_top_state_complete(
                        trait_impl,
                        i + 1,
                        TopStateView { evt_type_alias: Some(alias@), ..ts },
                    ),
                    Err(_) => {},
                }
            },
            crate::syntax::ImplItem::Fn(f) => {
                if f.ident@ == "init"@ {
                    match crate::parser::init::spec_parse_init_fn(f) {
                        Ok((target, action)) => lemma_fill_top_state_complete(
                            trait_impl,
                            i + 1,
                            TopStateView {
                                init: crate::model::InitView {
                                    action: crate::model::opt_str_view(action),
                                    target: target@,
                                },
                                ..ts
                            },
                        ),
                        Err(_) => {},
                    }
                } else {
                    lemma_fill_top_state_complete(trait_impl, i + 1, ts);
                }
            },
            crate::syntax::ImplItem::Other => lemma_fill_top_state_complete(trait_impl, i + 1, ts),
        }
    }
}

/// What reading the items of a file from the `i`-th on keeps: distinct state names, every
/// state already present, a state for each `State<Tag>` implementation read, the model's
/// name equal to each non-empty implementing type's name, and a complete top state once a
/// `TopState` implementation is read.
proof fn lemma_parse_items_from(ast: SourceFile, i: int, m: StateMachineView, r: StateMachineView)
    requires
        0 <= i <= ast.items@.len(),
        m.wf(),
        spec_parse_items_from(ast, i, m) == Some(Ok::<StateMachineView, crate::errors::ErrorView>(r)),
    ensures
        r.wf(),
        forall|n: Seq<char>| m.has_state(n) ==> #[trigger] r.has_state(n),
        forall|j: int|
            i <= j < ast.items@.len() && #[trigger] item_state_tag(ast.items@[j]) is Some
                ==> r.has_state(item_state_tag(ast.items@[j]).unwrap()@),
        m.name.len() > 0 ==> r.name == m.name,
        forall|j: int|
            i <= j < ast.items@.len() && #[trigger] item_machine_name(ast.items@[j]) is Some
                && item_machine_name(ast.items@[j]).unwrap()@.len() > 0 ==> r.name == item_machine_name(
                ast.items@[j],
            ).unwrap()@,
        top_state_complete(m.top_state) ==> top_state_complete(r.top_state),
        forall|j: int|
            i <= j < ast.items@.len() && #[trigger] item_is_top_state(ast.items@[j])
                ==> top_state_complete(r.top_state),
        (forall|j: int| i <= j < ast.items@.len() ==> !#[trigger] item_is_top_state(ast.items@[j]))
            ==> r.top_state == m.top_state,
    decreases ast.items@.len() - i,
{
    if i == ast.items@.len() {
        return;
    }
    let item = ast.items@[i];
    match item {
        Item::Impl(trait_impl) => {
            match spec_get_trait_impl_type(trait_impl) {
                Some(Ok(TraitImplSignatureInfo::State { state_tag, state_machine_name })) => {
                    let (m2, _) = spec_check_state_machine_ownership(m, state_machine_name@);
                    let (m3, _) = spec_fill_state_model(trait_impl, state_tag@, m2).unwrap();
                    lemma_fill_state_model_keeps_states(trait_impl, state_tag@, m2, m3, Ok(()));
                    lemma_parse_items_from(ast, i + 1, m3, r);
                },
                Some(Ok(TraitImplSignatureInfo::TopState { state_machine_name })) => {
                    let (m2, _) = spec_check_state_machine_ownership(m, state_machine_name@);
                    let (ts, _) = spec_fill_top_state_model(trait_impl, m2.top_state);
                    lemma_fill_top_state_complete(trait_impl, 0, m2.top_state);
                    assert(item_is_top_state(ast.items@[i]));
                    let m3 = StateMachineView { top_state: ts, ..m2 };
                    assert(m3.has_state(state_machine_name@) == m.has_state(state_machine_name@));
                    assert forall|n: Seq<char>| m.has_state(n) implies #[trigger] m3.has_state(n) by {
                        let k = choose|k: int| 0 <= k < m.states.len() && #[trigger] m.states[k].name
                            == n;
                        assert(m3.states[k].name == n);
                    }
                    lemma_parse_items_from(ast, i + 1, m3, r);
                },
                Some(Ok(TraitImplSignatureInfo::Other)) => {
                    lemma_parse_items_from(ast, i + 1, m, r);
                },
                _ => {},
            }
        },
        Item::Other => {
            lemma_parse_items_from(ast, i + 1, m, r);
        },
    }
}

/// The model of a file that parses: its state names are distinct; it has a state for each
/// `State<Tag>` implementation of the file; its name is the name of each type that a state
/// trait is implemented for (where that name is not empty); if the file implements
/// `TopState`, the top state has an initial transition target and an event type, and
/// otherwise the top state is the empty one.
pub proof fn lemma_parse_model(ast: SourceFile, r: StateMachineView)
    requires
        spec_parse(ast) == Some(Ok::<StateMachineView, crate::errors::ErrorView>(r)),
    ensures
        r.wf(),
        forall|j: int|
            0 <= j < ast.items@.len() && #[trigger] item_state_tag(ast.items@[j]) is Some
                ==> r.has_state(item_state_tag(ast.items@[j]).unwrap()@),
        forall|j: int|
            0 <= j < ast.items@.len() && #[trigger] item_machine_name(ast.items@[j]) is Some
                && item_machine_name(ast.items@[j]).unwrap()@.len() > 0 ==> r.name == item_machine_name(
                ast.items@[j],
            ).unwrap()@,
        forall|j: int|
            0 <= j < ast.items@.len() && #[trigger] item_is_top_state(ast.items@[j])
                ==> top_state_complete(r.top_state),
        (forall|j: int| 0 <= j < ast.items@.len() ==> !#[trigger] item_is_top_state(ast.items@[j]))
            ==> r.top_state == spec_empty_model().top_state,
{
    lemma_parse_items_from(ast, 0, spec_empty_model(), r);
}

/// The top state's initial target is either unset or the name of a state.
pub open spec fn target_is_state(m: StateMachineView) -> bool {
    m.top_state.init.target.len() == 0 || m.has_state(m.top_state.init.target)
}

proof fn lemma_fill_top_with_target_from(trait_impl: ItemImpl, i: int, m: StateMachineView, set: bool)
    requires
        m.wf(),
        set ==> m.has_state(m.top_state.init.target),
        !set ==> m.top_state.init.target.len() == 0,
    ensures
        spec_fill_top_with_target_from(trait_impl, i, m, set).0.wf(),
        target_is_state(spec_fill_top_with_target_from(trait_impl, i, m, set).0),
        spec_fill_top_with_target_from(trait_impl, i, m, set).0.name == m.name,
        forall|n: Seq<char>|
            m.has_state(n) ==> #[trigger] spec_fill_top_with_target_from(trait_impl, i, m, set).0.has_state(n),
        (spec_fill_top_with_target_from(trait_impl, i, m, set).1 is Ok
            || spec_fill_top_with_target_from(trait_impl, i, m, set).1 matches Err(
            crate::errors::Error::MissingEvtTypeDef { .. },
        )) ==> spec_fill_top_with_target_from(trait_impl, i, m, set).0.has_state(
            spec_fill_top_with_target_from(trait_impl, i, m, set).0.top_state.init.target,
        ),
    decreases trait_impl.items@.len() - i,
{
    if i < 0 || i >= trait_impl.items@.len() {
    } else {
        match trait_impl.items@[i] {
            crate::syntax::ImplItem::Type(t) => {
                match crate::parser::top_state::spec_parse_top_state_associated_type(t) {
                    Ok(alias) => {
                        let m2 = StateMachineView {
                            top_state: TopStateView { evt_type_alias: Some(alias@), ..m.top_state },
                            ..m
                        };
                        assert forall|n: Seq<char>| m.has_state(n) implies #[trigger] m2.has_state(n) by {
                            let k = choose|k: int| 0 <= k < m.states.len() && #[trigger] m.states[k].name == n;
                            assert(m2.states[k].name == n);
                        }
                        if set {
                            assert(m2.has_state(m.top_state.init.target));
                        }
                        lemma_fill_top_with_target_from(trait_impl, i + 1, m2, set);
                    },
                    Err(_) => {},
                }
            },
            crate::syntax::ImplItem::Fn(f) => {
                if f.ident@ == "init"@ {
                    match crate::parser::init::spec_parse_init_fn(f) {
                        Ok((target, _)) => {
                            lemma_with_state_named(m, target@);
                            let m1 = m.with_state_named(target@);
                            let m2 = StateMachineView {
                                top_state: TopStateView {
                                    init: crate::model::InitView { target: target@, ..m1.top_state.init },
                                    ..m1.top_state
                                },
                                ..m1
                            };
                            assert forall|n: Seq<char>| m1.has_state(n) implies #[trigger] m2.has_state(n) by {
                                let k = choose|k: int| 0 <= k < m1.states.len() && #[trigger] m1.states[k].name == n;
                                assert(m2.states[k].name == n);
                            }
                            assert(m2.has_state(target@));
                            lemma_fill_top_with_target_from(trait_impl, i + 1, m2, true);
                        },
                        Err(_) => {
                            if set {
                                lemma_fill_top_with_target_from(trait_impl, i + 1, m, set);
                            }
                        },
                    }
                } else {
                    lemma_fill_top_with_target_from(trait_impl, i + 1, m, set);
                }
            },
            crate::syntax::ImplItem::Other => lemma_fill_top_with_target_from(trait_impl, i + 1, m, set),
        }
    }
}

/// Reading a `TopState` implementation in the way that adds the initial transition's target
/// (`Parser::fill_top_state_model`) keeps state names distinct, the machine's name and every
/// state; and if the model's target was empty or a state, then afterwards, whatever the
/// result, the target is empty or a state: after a success (or a `MissingEvtTypeDef`), the
/// target names a state of the model.
pub proof fn lemma_fill_top_state_with_target(trait_impl: ItemImpl, m: StateMachineView)
    requires
        m.wf(),
        target_is_state(m),
    ensures
        spec_fill_top_state_with_target(trait_impl, m).0.wf(),
        target_is_state(spec_fill_top_state_with_target(trait_impl, m).0),
        spec_fill_top_state_with_target(trait_impl, m).0.name == m.name,
        forall|n: Seq<char>| m.has_state(n) ==> #[trigger] spec_fill_top_state_with_target(trait_impl, m).0.has_state(n),
        spec_fill_top_state_with_target(trait_impl, m).1 is Ok ==> spec_fill_top_state_with_target(
            trait_impl,
            m,
        ).0.has_state(spec_fill_top_state_with_target(trait_impl, m).0.top_state.init.target),
        spec_fill_top_state_with_target(trait_impl, m).1 matches Err(
            crate::errors::Error::MissingEvtTypeDef { .. },
        ) ==> spec_fill_top_state_with_target(trait_impl, m).0.has_state(
            spec_fill_top_state_with_target(trait_impl, m).0.top_state.init.target,
        ),
{
    lemma_fill_top_with_target_from(trait_impl, 0, m, m.top_state.init.target.len() > 0);
}

} // verus!
