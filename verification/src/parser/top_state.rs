//! Classifying `impl` blocks, and parsing of the `TopState` implementation.
use vstd::prelude::*;

use crate::errors::Error;
use crate::model::{opt_str_view, InitView, StateMachine, TopState, TopStateView};
use crate::parser::init::{parse_init_fn, spec_parse_init_fn};
use crate::parser::{get_state_tag, ident_is, spec_get_state_tag, TraitImplSignatureInfo};
use crate::syntax::{ImplItem, ImplItemType, ItemImpl, Type};

verus! {

/// The name of the type a state trait is implemented for: the last segment of its path.
/// `None` where that path is empty.
pub open spec fn spec_get_state_type(self_ty: Type) -> Option<Result<String, Error>> {
    match self_ty {
        Type::Path(p) => if p.segments@.len() == 0 {
            None
        } else {
            Some(Ok(p.segments@.last().ident))
        },
        Type::Other(pos) => Some(
            Err(Error::InvalidStateMachineName { line: pos.line, col: pos.column }),
        ),
    }
}

fn get_state_type(self_ty: &Type) -> (res: Option<Result<String, Error>>)
    ensures
        res == spec_get_state_type(*self_ty),
{
    match self_ty {
        Type::Path(path) => match path.last_segment() {
            Some(segment) => Some(Ok(segment.ident.clone())),
            None => None,
        },
        Type::Other(line_col) => Some(
            Err(Error::InvalidStateMachineName { line: line_col.line, col: line_col.column }),
        ),
    }
}

/// What state trait an `impl` block implements, by the first segment of the trait path:
/// `State<Tag>` gives the tag (read first) and the implementing type's name, `TopState`
/// gives the type's name, any other trait gives `Other`. `None` for an inherent impl, a
/// trait path without segments, or where reading the tag or the type's name has no answer.
pub open spec fn spec_get_trait_impl_type(trait_impl: ItemImpl) -> Option<
    Result<TraitImplSignatureInfo, Error>,
> {
    match trait_impl.trait_ {
        None => None,
        Some(path) => if path.segments@.len() == 0 {
            None
        } else {
            let segment = path.segments@[0];
            if segment.ident@ == "State"@ {
                match spec_get_state_tag(segment.arguments) {
                    None => None,
                    Some(Err(e)) => Some(Err(e)),
                    Some(Ok(state_tag)) => match spec_get_state_type(trait_impl.self_ty) {
                        None => None,
                        Some(Err(e)) => Some(Err(e)),
                        Some(Ok(state_machine_name)) => Some(
                            Ok(TraitImplSignatureInfo::State { state_tag, state_machine_name }),
                        ),
                    },
                }
            } else if segment.ident@ == "TopState"@ {
                match spec_get_state_type(trait_impl.self_ty) {
                    None => None,
                    Some(Err(e)) => Some(Err(e)),
                    Some(Ok(state_machine_name)) => Some(
                        Ok(TraitImplSignatureInfo::TopState { state_machine_name }),
                    ),
                }
            } else {
                Some(Ok(TraitImplSignatureInfo::Other))
            }
        },
    }
}

/// `get_trait_impl_type`, or `None` where it has no answer.
pub fn try_get_trait_impl_type(trait_impl: &ItemImpl) -> (res: Option<
    Result<TraitImplSignatureInfo, Error>,
>)
    ensures
        res == spec_get_trait_impl_type(*trait_impl),
{
    match &trait_impl.trait_ {
        None => None,
        Some(path) => {
            if path.segments.len() == 0 {
                return None;
            }
            let segment = &path.segments[0];
            let trait_impl_ident = &segment.ident;
            if ident_is(trait_impl_ident, "State") {
                let state_tag = match get_state_tag(&segment.arguments) {
                    None => {
                        return None;
                    },
                    Some(Err(e)) => {
                        return Some(Err(e));
                    },
                    Some(Ok(t)) => t,
                };
                let state_machine_name = match get_state_type(&trait_impl.self_ty) {
                    None => {
                        return None;
                    },
                    Some(Err(e)) => {
                        return Some(Err(e));
                    },
                    Some(Ok(n)) => n,
                };
                Some(Ok(TraitImplSignatureInfo::State { state_tag, state_machine_name }))
            } else if ident_is(trait_impl_ident, "TopState") {
                let state_machine_name = match get_state_type(&trait_impl.self_ty) {
                    None => {
                        return None;
                    },
                    Some(Err(e)) => {
                        return Some(Err(e));
                    },
                    Some(Ok(n)) => n,
                };
                Some(Ok(TraitImplSignatureInfo::TopState { state_machine_name }))
            } else {
                Some(Ok(TraitImplSignatureInfo::Other))
            }
        },
    }
}

/// What state trait an `impl` block implements (see `spec_get_trait_impl_type`).
pub fn get_trait_impl_type(trait_impl: &ItemImpl) -> (res: Result<TraitImplSignatureInfo, Error>)
    requires
        spec_get_trait_impl_type(*trait_impl) is Some,
    ensures
        Some(res) == spec_get_trait_impl_type(*trait_impl),
{
    try_get_trait_impl_type(trait_impl).unwrap()
}

/// The event type of an associated type `type Evt = a::b::EvtType;`: the last segment of
/// its path. Any other associated type is an `InvalidEvtTypeDef` error.
pub open spec fn spec_parse_top_state_associated_type(type_: ImplItemType) -> Result<String, Error> {
    let err = Error::InvalidEvtTypeDef { line: type_.span_start.line, col: type_.span_start.column };
    if type_.ident@ == "Evt"@ {
        match type_.ty {
            Type::Path(p) => if p.segments@.len() > 0 {
                Ok(p.segments@.last().ident)
            } else {
                Err(err)
            },
            _ => Err(err),
        }
    } else {
        Err(err)
    }
}

pub(crate) fn parse_top_state_associated_type(
    type_: &ImplItemType,
    state_machine_model: &mut StateMachine,
) -> (res: Result<(), Error>)
    ensures
        match spec_parse_top_state_associated_type(*type_) {
            Ok(alias) => res is Ok && *final(state_machine_model) == (StateMachine {
                top_state: TopState { evt_type_alias: Some(alias), ..old(state_machine_model).top_state },
                ..*old(state_machine_model)
            }),
            Err(e) => res == Err::<(), Error>(e) && *final(state_machine_model) == *old(
                state_machine_model,
            ),
        },
{
    if ident_is(&type_.ident, "Evt") {
        if let Type::Path(type_alias) = &type_.ty {
            if let Some(segment) = type_alias.last_segment() {
                state_machine_model.top_state.evt_type_alias = Some(segment.ident.clone());
                return Ok(());
            }
        }
    }
    Err(Error::InvalidEvtTypeDef { line: type_.span_start.line, col: type_.span_start.column })
}

/// The final check of a top state: it has an initial transition target, then an event type.
pub open spec fn spec_check_top_state(trait_impl: ItemImpl, top_state: TopStateView) -> Result<(), Error> {
    let pos = trait_impl.span_start;
    if top_state.init.target.len() == 0 {
        Err(Error::MissingInitDef { line: pos.line, col: pos.column })
    } else if top_state.evt_type_alias is None {
        Err(Error::MissingEvtTypeDef { line: pos.line, col: pos.column })
    } else {
        Ok(())
    }
}

/// The top state after reading the items of a `TopState` implementation from the `i`-th on,
/// and the result: each associated type sets the event type (or is an error), each `init`
/// function sets the initial transition (or is an error); at the end the top state is checked.
pub open spec fn spec_fill_top_from(trait_impl: ItemImpl, i: int, top_state: TopStateView) -> (
    TopStateView,
    Result<(), Error>,
)
    decreases trait_impl.items@.len() - i,
{
    if i < 0 || i >= trait_impl.items@.len() {
        (top_state, spec_check_top_state(trait_impl, top_state))
    } else {
        match trait_impl.items@[i] {
            ImplItem::Type(t) => match spec_parse_top_state_associated_type(t) {
                Ok(alias) => spec_fill_top_from(
                    trait_impl,
                    i + 1,
                    TopStateView { evt_type_alias: Some(alias@), ..top_state },
                ),
                Err(e) => (top_state, Err(e)),
            },
            ImplItem::Fn(f) => if f.ident@ == "init"@ {
                match spec_parse_init_fn(f) {
                    Ok((target, action)) => spec_fill_top_from(
                        trait_impl,
                        i + 1,
                        TopStateView {
                            init: InitView { action: opt_str_view(action), target: target@ },
                            ..top_state
                        },
                    ),
                    Err(e) => (top_state, Err(e)),
                }
            } else {
                spec_fill_top_from(trait_impl, i + 1, top_state)
            },
            ImplItem::Other => spec_fill_top_from(trait_impl, i + 1, top_state),
        }
    }
}

/// The top state after reading a `TopState` implementation into `top_state`, and the result.
pub open spec fn spec_fill_top_state_model(trait_impl: ItemImpl, top_state: TopStateView) -> (
    TopStateView,
    Result<(), Error>,
) {
    spec_fill_top_from(trait_impl, 0, top_state)
}

/// Reads a `TopState` implementation into the top state of the model (see
/// `spec_fill_top_state_model`); the name and the states of the model are left as they were.
pub fn fill_top_state_model(trait_impl: &ItemImpl, state_machine_model: &mut StateMachine) -> (res:
    Result<(), Error>)
    ensures
        (final(state_machine_model).top_state@, res) == spec_fill_top_state_model(
            *trait_impl,
            old(state_machine_model).top_state@,
        ),
        final(state_machine_model).name == old(state_machine_model).name,
        final(state_machine_model).states == old(state_machine_model).states,
{
    let items = &trait_impl.items;
    let mut i: usize = 0;
    while i < items.len()
        invariant
            items == &trait_impl.items,
            i <= items@.len(),
            spec_fill_top_from(*trait_impl, 0, old(state_machine_model).top_state@)
                == spec_fill_top_from(*trait_impl, i as int, state_machine_model.top_state@),
            state_machine_model.name == old(state_machine_model).name,
            state_machine_model.states == old(state_machine_model).states,
        decreases items@.len() - i,
    {
        match &items[i] {
            ImplItem::Type(type_) => {
                match parse_top_state_associated_type(type_, state_machine_model) {
                    Ok(()) => {},
                    Err(e) => {
                        return Err(e);
                    },
                }
            },
            ImplItem::Fn(fn_) => {
                if ident_is(&fn_.ident, "init") {
                    match parse_init_fn(fn_) {
                        Ok((init_target, action)) => {
                            state_machine_model.top_state.init.target = init_target;
                            state_machine_model.top_state.init.action = action;
                        },
                        Err(e) => {
                            return Err(e);
                        },
                    }
                }
            },
            ImplItem::Other => {},
        }
        i = i + 1;
    }
    if state_machine_model.top_state.init.target.as_str().is_empty() {
        Err(
            Error::MissingInitDef {
                line: trait_impl.span_start.line,
                col: trait_impl.span_start.column,
            },
        )
    } else if state_machine_model.top_state.evt_type_alias.is_none() {
        Err(
            Error::MissingEvtTypeDef {
                line: trait_impl.span_start.line,
                col: trait_impl.span_start.column,
            },
        )
    } else {
        Ok(())
    }
}

} // verus!
