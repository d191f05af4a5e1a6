//! Filling the model of one state from its `State` implementation.
use vstd::prelude::*;

use crate::errors::Error;
use crate::model::{
    lemma_states_view_len, opt_str_view, states_view, CatcherView, Entry, EntryView, EvtHandler,
    Exit, ExitView, Init, InitView, StateMachine, StateMachineView, StateView,
};
use crate::parser::init::{parse_init_fn, spec_parse_init_fn};
use crate::parser::{
    find_state, ident_is, parse_entry_or_exit_fn, spec_parse_entry_or_exit_fn,
    try_insert_state_into_model,
};
use crate::syntax::{ImplItem, ItemImpl};

use self::handle::{spec_parse_handle, try_parse_handle};

pub mod handle;

verus! {

/// What the functions of a `State` implementation give: its init transition, entry and exit
/// actions and event handler, each where the corresponding function was read.
pub struct StatePartsView {
    pub init: Option<InitView>,
    pub entry: Option<EntryView>,
    pub exit: Option<ExitView>,
    pub handler: Option<Seq<CatcherView>>,
}

impl StatePartsView {
    pub open spec fn empty() -> StatePartsView {
        StatePartsView { init: None, entry: None, exit: None, handler: None }
    }
}

/// The parts read from the items of a `State` implementation from the `i`-th on, starting
/// from `parts`: functions named `init`, `entry`, `exit` and `handle` each set their part
/// (a later one replaces an earlier one); other items are skipped. An error of `init` or
/// `handle` ends the reading; `None` where `handle` has no answer.
pub open spec fn spec_state_items_from(trait_impl: ItemImpl, i: int, parts: StatePartsView) -> Option<
    Result<StatePartsView, Error>,
>
    decreases trait_impl.items@.len() - i,
{
    if i < 0 || i >= trait_impl.items@.len() {
        Some(Ok(parts))
    } else {
        match trait_impl.items@[i] {
            ImplItem::Fn(f) => if f.ident@ == "init"@ {
                match spec_parse_init_fn(f) {
                    Ok((target, action)) => spec_state_items_from(
                        trait_impl,
                        i + 1,
                        StatePartsView {
                            init: Some(InitView { action: opt_str_view(action), target: target@ }),
                            ..parts
                        },
                    ),
                    Err(e) => Some(Err(e)),
                }
            } else if f.ident@ == "entry"@ {
                spec_state_items_from(
                    trait_impl,
                    i + 1,
                    StatePartsView {
                        entry: Some(EntryView { action: opt_str_view(spec_parse_entry_or_exit_fn(f)) }),
                        ..parts
                    },
                )
            } else if f.ident@ == "exit"@ {
                spec_state_items_from(
                    trait_impl,
                    i + 1,
                    StatePartsView {
                        exit: Some(ExitView { action: opt_str_view(spec_parse_entry_or_exit_fn(f)) }),
                        ..parts
                    },
                )
            } else if f.ident@ == "handle"@ {
                match spec_parse_handle(f) {
                    None => None,
                    Some(Err(e)) => Some(Err(e)),
                    Some(Ok(h)) => spec_state_items_from(
                        trait_impl,
                        i + 1,
                        StatePartsView { handler: Some(h), ..parts },
                    ),
                }
            } else {
                spec_state_items_from(trait_impl, i + 1, parts)
            },
            _ => spec_state_items_from(trait_impl, i + 1, parts),
        }
    }
}

/// The model after reading the `State<state_tag>` implementation `trait_impl` into `m`, and
/// the result; `None` where reading `handle` has no answer.
///
/// A state named `state_tag` is added if there is none. If reading an item fails, that is
/// the result. Otherwise the state's init, entry and exit become what was read (`None` where
/// no such function was); its event handler becomes the one read, and without a `handle`
/// function the result is `MissingEvtHandler` at the implementation (the state keeps its
/// previous event handler).
pub open spec fn spec_fill_state_model(trait_impl: ItemImpl, state_tag: Seq<char>, m: StateMachineView) -> Option<
    (StateMachineView, Result<(), Error>),
> {
    let m1 = m.with_state_named(state_tag);
    match spec_state_items_from(trait_impl, 0, StatePartsView::empty()) {
        None => None,
        Some(Err(e)) => Some((m1, Err(e))),
        Some(Ok(p)) => {
            let k = m1.state_index(state_tag);
            let s = m1.states[k];
            let s2 = StateView {
                init: p.init,
                entry: p.entry,
                exit: p.exit,
                evt_handler: match p.handler {
                    Some(h) => h,
                    None => s.evt_handler,
                },
                ..s
            };
            Some(
                (
                    m1.with_state(k, s2),
                    match p.handler {
                        Some(_) => Ok(()),
                        None => Err(
                            Error::MissingEvtHandler {
                                line: trait_impl.span_start.line,
                                col: trait_impl.span_start.column,
                            },
                        ),
                    },
                ),
            )
        },
    }
}

pub open spec fn parts_view(
    init: Option<Init>,
    entry: Option<Entry>,
    exit: Option<Exit>,
    handler: Option<EvtHandler>,
) -> StatePartsView {
    StatePartsView {
        init: match init {
            Some(i) => Some(i@),
            None => None,
        },
        entry: match entry {
            Some(e) => Some(e@),
            None => None,
        },
        exit: match exit {
            Some(e) => Some(e@),
            None => None,
        },
        handler: match handler {
            Some(h) => Some(h@),
            None => None,
        },
    }
}

/// `fill_state_model`, or `None` where reading `handle` has no answer.
pub fn try_fill_state_model(
    trait_impl: &ItemImpl,
    state_tag: String,
    state_machine_model: &mut StateMachine,
) -> (res: Option<Result<(), Error>>)
    requires
        old(state_machine_model).wf(),
    ensures
        final(state_machine_model).wf(),
        match spec_fill_state_model(*trait_impl, state_tag@, old(state_machine_model)@) {
            Some((m, r)) => res == Some(r) && final(state_machine_model)@ == m,
            None => res is None,
        },
{
    try_insert_state_into_model(state_machine_model, state_tag.clone());
    let ghost m1 = state_machine_model@;
    let items = &trait_impl.items;
    let mut init: Option<Init> = None;
    let mut entry: Option<Entry> = None;
    let mut exit: Option<Exit> = None;
    let mut evt_handler: Option<EvtHandler> = None;
    let mut i: usize = 0;
    while i < items.len()
        invariant
            items == &trait_impl.items,
            i <= items@.len(),
            state_machine_model@ == m1,
            m1 == old(state_machine_model)@.with_state_named(state_tag@),
            state_machine_model.wf(),
            spec_state_items_from(*trait_impl, 0, StatePartsView::empty()) == spec_state_items_from(
                *trait_impl,
                i as int,
                parts_view(init, entry, exit, evt_handler),
            ),
        decreases items@.len() - i,
    {
        if let ImplItem::Fn(fn_) = &items[i] {
            if ident_is(&fn_.ident, "init") {
                match parse_init_fn(fn_) {
                    Ok((init_target, action)) => {
                        init = Some(Init { action, target: init_target });
                    },
                    Err(e) => {
                        return Some(Err(e));
                    },
                }
            } else if ident_is(&fn_.ident, "entry") {
                let action = parse_entry_or_exit_fn(fn_);
                entry = Some(Entry { action });
            } else if ident_is(&fn_.ident, "exit") {
                let action = parse_entry_or_exit_fn(fn_);
                exit = Some(Exit { action });
            } else if ident_is(&fn_.ident, "handle") {
                match try_parse_handle(fn_) {
                    None => {
                        return None;
                    },
                    Some(Err(e)) => {
                        return Some(Err(e));
                    },
                    Some(Ok(h)) => {
                        evt_handler = Some(h);
                    },
                }
            }
        }
        i = i + 1;
    }
    proof {
        lemma_states_view_len(state_machine_model.states@);
        if !old(state_machine_model)@.has_state(state_tag@) {
            assert(m1.states[m1.states.len() - 1].name == state_tag@);
        }
        assert(m1.has_state(state_tag@));
    }
    let k = match find_state(&state_machine_model.states, &state_tag) {
        Some(k) => k,
        None => {
            // Unreachable: the state was inserted above.
            proof {
                let kk = m1.state_index(state_tag@);
                assert(state_machine_model.states@[kk].name@ == state_tag@);
                assert(false);
            }
            return None;
        },
    };
    proof {
        let kk = m1.state_index(state_tag@);
        assert(m1.states[k as int].name == state_tag@);
        assert(kk == k);
    }
    let ghost old_states = state_machine_model.states@;
    let mut state = state_machine_model.states.remove(k);
    state.init = init;
    state.entry = entry;
    state.exit = exit;
    let res = match evt_handler {
        Some(h) => {
            state.evt_handler = h;
            Ok(())
        },
        None => Err(
            Error::MissingEvtHandler {
                line: trait_impl.span_start.line,
                col: trait_impl.span_start.column,
            },
        ),
    };
    let ghost new_state = state;
    state_machine_model.states.insert(k, state);
    proof {
        assert(state_machine_model.states@ =~= old_states.update(k as int, new_state));
        lemma_states_view_len(state_machine_model.states@);
        lemma_states_view_len(old_states);
        assert(states_view(state_machine_model.states@) =~= states_view(old_states).update(
            k as int,
            new_state@,
        ));
    }
    Some(res)
}

/// Reads the `State<state_tag>` implementation `trait_impl` into the model (see
/// `spec_fill_state_model`).
pub fn fill_state_model(
    trait_impl: &ItemImpl,
    state_tag: String,
    state_machine_model: &mut StateMachine,
) -> (res: Result<(), Error>)
    requires
        old(state_machine_model).wf(),
        spec_fill_state_model(*trait_impl, state_tag@, old(state_machine_model)@) is Some,
    ensures
        final(state_machine_model).wf(),
        Some((final(state_machine_model)@, res)) == spec_fill_state_model(
            *trait_impl,
            state_tag@,
            old(state_machine_model)@,
        ),
{
    try_fill_state_model(trait_impl, state_tag, state_machine_model).unwrap()
}

} // verus!
