//! Reading a state machine model out of the syntax tree of a source file.
use vstd::prelude::*;

use crate::errors::{Error, ErrorView};
use crate::model::{
    lemma_states_view_len, states_view, InitView, State, StateMachine, StateMachineView, StateView,
    TopStateView,
};
use crate::syntax::{
    GenericArgument, ImplItem, ImplItemFn, Item, ItemImpl, PathArguments, PathArgumentsKind, SourceFile, Type,
};

use crate::rust_source::{parse_rust_file, rust_source_parses};
use self::state::{spec_fill_state_model, try_fill_state_model};
use self::init::spec_parse_init_fn;
use self::top_state::{
    spec_fill_top_state_model, spec_get_trait_impl_type,
    spec_parse_top_state_associated_type, try_get_trait_impl_type,
};

pub mod init;
pub mod properties;
pub mod reading;
pub mod state;
pub mod top_state;

verus! {

/// A parser for the state machine described in one source file.
pub struct Parser {
    file_path: String,
}

/// The kind of state trait an `impl` block implements, with the names it carries.
#[derive(Debug, PartialEq, Eq)]
pub enum TraitImplSignatureInfo {
    /// `impl State<StateTag> for StateMachineName`.
    State { state_tag: String, state_machine_name: String },
    /// `impl TopState for StateMachineName`.
    TopState { state_machine_name: String },
    /// Any other trait.
    Other,
}

/// Whether an identifier is the given word.
pub(crate) fn ident_is(ident: &String, word: &str) -> (res: bool)
    ensures
        res == (ident@ == word@),
{
    let word = word.to_owned();
    *ident == word
}

/// A copy of an optional string.
pub(crate) fn clone_opt_string(o: &Option<String>) -> (res: Option<String>)
    ensures
        res == *o,
{
    match o {
        Some(s) => Some(s.clone()),
        None => None,
    }
}

/// The tag `T` of a trait path segment `State<T>`: the last segment of the first generic
/// argument, which must be a type path. `None` where the argument list or that path is empty.
pub open spec fn spec_get_state_tag(path_argument: PathArguments) -> Option<Result<String, Error>> {
    let err = Error::InvalidStateTag {
        line: path_argument.span_start.line,
        col: path_argument.span_start.column,
    };
    match path_argument.kind {
        PathArgumentsKind::AngleBracketed(args) => if args@.len() == 0 {
            None
        } else {
            match args@[0] {
                GenericArgument::Type(Type::Path(p)) => if p.segments@.len() == 0 {
                    None
                } else {
                    Some(Ok(p.segments@.last().ident))
                },
                _ => Some(Err(err)),
            }
        },
        _ => Some(Err(err)),
    }
}

pub(crate) fn get_state_tag(path_argument: &PathArguments) -> (res: Option<Result<String, Error>>)
    ensures
        res == spec_get_state_tag(*path_argument),
{
    if let PathArgumentsKind::AngleBracketed(args) = &path_argument.kind {
        if args.len() == 0 {
            return None;
        }
        if let GenericArgument::Type(Type::Path(path)) = &args[0] {
            return match path.last_segment() {
                Some(segment) => Some(Ok(segment.ident.clone())),
                None => None,
            };
        }
    }
    Some(
        Err(
            Error::InvalidStateTag {
                line: path_argument.span_start.line,
                col: path_argument.span_start.column,
            },
        ),
    )
}

/// The model after a check that an implementation for `label` belongs to it, and the result
/// of the check: a model without a name takes the label as its name; a model with another
/// name is an error.
pub open spec fn spec_check_state_machine_ownership(m: StateMachineView, label: Seq<char>) -> (
    StateMachineView,
    Result<(), ErrorView>,
) {
    if label == m.name {
        (m, Ok(()))
    } else if m.name.len() == 0 {
        (StateMachineView { name: label, ..m }, Ok(()))
    } else {
        (
            m,
            Err(
                ErrorView::ConcurrentStateMachineImpl {
                    expected_state_machine_name: m.name,
                    found_state_machine_name: label,
                },
            ),
        )
    }
}

/// Checks that an implementation for the type `label` belongs to the state machine of the
/// model: a model without a name takes `label` as its name; a model with a name other than
/// `label` gives `ConcurrentStateMachineImpl` and is left as it was.
pub fn check_state_machine_ownership(label: String, state_machine_model: &mut StateMachine) -> (res:
    Result<(), Error>)
    ensures
        label@ == old(state_machine_model).name@ ==> res is Ok && *final(state_machine_model)
            == *old(state_machine_model),
        label@ != old(state_machine_model).name@ && old(state_machine_model).name@.len() == 0
            ==> res is Ok && *final(state_machine_model) == (StateMachine {
            name: label,
            ..*old(state_machine_model)
        }),
        label@ != old(state_machine_model).name@ && old(state_machine_model).name@.len() > 0
            ==> res == Err::<(), Error>(
            Error::ConcurrentStateMachineImpl {
                expected_state_machine_name: old(state_machine_model).name,
                found_state_machine_name: label,
            },
        ) && *final(state_machine_model) == *old(state_machine_model),
        final(state_machine_model)@ == spec_check_state_machine_ownership(
            old(state_machine_model)@,
            label@,
        ).0,
        match res {
            Ok(()) => spec_check_state_machine_ownership(old(state_machine_model)@, label@).1 is Ok,
            Err(e) => spec_check_state_machine_ownership(old(state_machine_model)@, label@).1
                == Err::<(), ErrorView>(e@),
        },
{
    if label == state_machine_model.name {
        return Ok(());
    } else {
        if state_machine_model.name.as_str().is_empty() {
            state_machine_model.name = label;
            return Ok(());
        } else {
            return Err(
                Error::ConcurrentStateMachineImpl {
                    expected_state_machine_name: state_machine_model.name.clone(),
                    found_state_machine_name: label,
                },
            );
        }
    }
}

impl StateMachineView {
    /// The index of the state with this name.
    pub open spec fn state_index(self, name: Seq<char>) -> int {
        choose|k: int| 0 <= k < self.states.len() && self.states[k].name == name
    }

    /// The model with a state of this name: itself if it has one, else with a state that
    /// has only this name added at the end.
    pub open spec fn with_state_named(self, name: Seq<char>) -> StateMachineView {
        if self.has_state(name) {
            self
        } else {
            StateMachineView { states: self.states.push(StateView::named(name)), ..self }
        }
    }
}

/// The index of the state with this name, if any.
pub(crate) fn find_state(states: &Vec<State>, name: &String) -> (res: Option<usize>)
    ensures
        match res {
            Some(k) => k < states@.len() && states@[k as int].name@ == name@,
            None => forall|k: int| 0 <= k < states@.len() ==> #[trigger] states@[k].name@ != name@,
        },
{
    let mut i: usize = 0;
    while i < states.len()
        invariant
            i <= states@.len(),
            forall|k: int| 0 <= k < i ==> #[trigger] states@[k].name@ != name@,
        decreases states@.len() - i,
    {
        if states[i].name == *name {
            return Some(i);
        }
        i = i + 1;
    }
    None
}

/// Adds to the model a state named `state_tag` with nothing else in it, unless the model
/// already has a state of that name, in which case the model is left as it was.
pub fn try_insert_state_into_model(state_machine_model: &mut StateMachine, state_tag: String)
    requires
        old(state_machine_model).wf(),
    ensures
        final(state_machine_model).wf(),
        final(state_machine_model)@ == old(state_machine_model)@.with_state_named(state_tag@),
        old(state_machine_model)@.has_state(state_tag@) ==> *final(state_machine_model) == *old(
            state_machine_model,
        ),
        final(state_machine_model).name == old(state_machine_model).name,
        final(state_machine_model).top_state == old(state_machine_model).top_state,
{
    proof {
        lemma_states_view_len(state_machine_model.states@);
    }
    match find_state(&state_machine_model.states, &state_tag) {
        Some(k) => {
            assert(state_machine_model@.states[k as int].name == state_tag@);
        },
        None => {
            let mut state = State::new();
            state.name = state_tag.clone();
            let ghost old_states = state_machine_model.states@;
            state_machine_model.states.push(state);
            proof {
                lemma_states_view_len(state_machine_model.states@);
                assert(states_view(state_machine_model.states@) =~= states_view(old_states).push(
                    StateView::named(state_tag@),
                ));
            }
        },
    }
}

/// The source text of the last statement of an entry or exit function, if any.
pub open spec fn spec_parse_entry_or_exit_fn(f: ImplItemFn) -> Option<String> {
    if f.block.stmts@.len() > 0 {
        f.block.stmts@.last().text
    } else {
        None
    }
}

/// The action of an entry or exit function: the source text of its last statement.
pub fn parse_entry_or_exit_fn(fn_: &ImplItemFn) -> (res: Option<String>)
    ensures
        res == spec_parse_entry_or_exit_fn(*fn_),
{
    let stmts = &fn_.block.stmts;
    let mut action = None;
    if stmts.len() > 0 {
        action = clone_opt_string(&stmts[stmts.len() - 1].text);
    }
    action
}

/// The model after reading the items of a file from the `i`-th on into `m`, or the first
/// error; `None` where reading an item has no answer.
///
/// Each `impl State<Tag> for T` and `impl TopState for T` first checks that `T` is the
/// state machine of the model (see `spec_check_state_machine_ownership`), then is read into
/// the model (see `spec_fill_state_model` and `spec_fill_top_state_model`). Items that are
/// no `impl` block, and implementations of other traits, are skipped.
pub open spec fn spec_parse_items_from(ast: SourceFile, i: int, m: StateMachineView) -> Option<
    Result<StateMachineView, ErrorView>,
>
    decreases ast.items@.len() - i,
{
    if i < 0 || i >= ast.items@.len() {
        Some(Ok(m))
    } else {
        match ast.items@[i] {
            Item::Impl(trait_impl) => match spec_get_trait_impl_type(trait_impl) {
                None => None,
                Some(Err(e)) => Some(Err(e@)),
                Some(Ok(TraitImplSignatureInfo::State { state_tag, state_machine_name })) => {
                    let (m2, r) = spec_check_state_machine_ownership(m, state_machine_name@);
                    match r {
                        Err(e) => Some(Err(e)),
                        Ok(_) => match spec_fill_state_model(trait_impl, state_tag@, m2) {
                            None => None,
                            Some((_, Err(e))) => Some(Err(e@)),
                            Some((m3, Ok(_))) => spec_parse_items_from(ast, i + 1, m3),
                        },
                    }
                },
                Some(Ok(TraitImplSignatureInfo::TopState { state_machine_name })) => {
                    let (m2, r) = spec_check_state_machine_ownership(m, state_machine_name@);
                    match r {
                        Err(e) => Some(Err(e)),
                        Ok(_) => match spec_fill_top_state_model(trait_impl, m2.top_state) {
                            (_, Err(e)) => Some(Err(e@)),
                            (ts, Ok(_)) => spec_parse_items_from(
                                ast,
                                i + 1,
                                StateMachineView { top_state: ts, ..m2 },
                            ),
                        },
                    }
                },
                Some(Ok(TraitImplSignatureInfo::Other)) => spec_parse_items_from(ast, i + 1, m),
            },
            Item::Other => spec_parse_items_from(ast, i + 1, m),
        }
    }
}

/// The model of an empty state machine: no name, no top state contents, no states.
pub open spec fn spec_empty_model() -> StateMachineView {
    StateMachineView {
        name: Seq::empty(),
        top_state: TopStateView {
            evt_type_alias: None,
            init: InitView { action: None, target: Seq::empty() },
        },
        states: Seq::empty(),
    }
}

/// The model that a whole file describes, or the first error; `None` where reading an item
/// has no answer.
pub open spec fn spec_parse(ast: SourceFile) -> Option<Result<StateMachineView, ErrorView>> {
    spec_parse_items_from(ast, 0, spec_empty_model())
}

/// The model after reading the items of a `TopState` implementation from the `i`-th on, in
/// the way that adds the initial transition's target to the states, and the result; `set`
/// tells whether the top state has an initial target (an empty target text counts as set
/// once an initial transition gave it).
///
/// Each associated type sets the event type (or is an error, see
/// `spec_parse_top_state_associated_type`). Each `init` function with an initial transition
/// (see `spec_parse_init_fn`) adds a state named by its target and makes that the top
/// state's target; an `init` function after which no target is set is a
/// `MissingInitTranCall` error at the function. At the end, no target set is a
/// `MissingInitDef` error, then no event type a `MissingEvtTypeDef` error, at the
/// implementation.
pub open spec fn spec_fill_top_with_target_from(
    trait_impl: ItemImpl,
    i: int,
    m: StateMachineView,
    set: bool,
) -> (StateMachineView, Result<(), Error>)
    decreases trait_impl.items@.len() - i,
{
    if i < 0 || i >= trait_impl.items@.len() {
        let pos = trait_impl.span_start;
        (
            m,
            if !set {
                Err(Error::MissingInitDef { line: pos.line, col: pos.column })
            } else if m.top_state.evt_type_alias is None {
                Err(Error::MissingEvtTypeDef { line: pos.line, col: pos.column })
            } else {
                Ok(())
            },
        )
    } else {
        match trait_impl.items@[i] {
            ImplItem::Type(t) => match spec_parse_top_state_associated_type(t) {
                Ok(alias) => spec_fill_top_with_target_from(
                    trait_impl,
                    i + 1,
                    StateMachineView {
                        top_state: TopStateView { evt_type_alias: Some(alias@), ..m.top_state },
                        ..m
                    },
                    set,
                ),
                Err(e) => (m, Err(e)),
            },
            ImplItem::Fn(f) => if f.ident@ == "init"@ {
                match spec_parse_init_fn(f) {
                    Ok((target, _)) => {
                        let m1 = m.with_state_named(target@);
                        let m2 = StateMachineView {
                            top_state: TopStateView {
                                init: InitView { target: target@, ..m1.top_state.init },
                                ..m1.top_state
                            },
                            ..m1
                        };
                        spec_fill_top_with_target_from(trait_impl, i + 1, m2, true)
                    },
                    Err(_) => if !set {
                        (
                            m,
                            Err(
                                Error::MissingInitTranCall {
                                    line: f.span_start.line,
                                    col: f.span_start.column,
                                },
                            ),
                        )
                    } else {
                        spec_fill_top_with_target_from(trait_impl, i + 1, m, set)
                    },
                }
            } else {
                spec_fill_top_with_target_from(trait_impl, i + 1, m, set)
            },
            ImplItem::Other => spec_fill_top_with_target_from(trait_impl, i + 1, m, set),
        }
    }
}

/// The model after reading a `TopState` implementation in the way that adds the initial
/// transition's target to the states, and the result; the model's target counts as set
/// where it is not empty.
pub open spec fn spec_fill_top_state_with_target(trait_impl: ItemImpl, m: StateMachineView) -> (
    StateMachineView,
    Result<(), Error>,
) {
    spec_fill_top_with_target_from(trait_impl, 0, m, m.top_state.init.target.len() > 0)
}

impl Parser {
    /// The path of the file this parser reads.
    pub closed spec fn spec_file_path(&self) -> Seq<char> {
        self.file_path@
    }

    pub fn new(file_path: &String) -> (res: Parser)
        ensures
            res.spec_file_path() == file_path@,
    {
        Parser { file_path: file_path.clone() }
    }

    /// Parses the text of the parser's file as Rust: its syntax tree, or `InvalidRustCode`
    /// with the path of the file where `syn` rejects the text.
    ///
    /// The tree is `syn`'s own and opaque here: of it, only that it exists exactly where
    /// `rust_source_parses` holds is stated. It is converted into `crate::syntax` by the
    /// caller, and the result of that is what `Parser::try_parse` reads.
    pub fn parse_source(&self, content: &str) -> (res: Result<syn::File, Error>)
        ensures
            res is Ok <==> rust_source_parses(content@),
            res matches Err(e) ==> e@ == (ErrorView::InvalidRustCode {
                filepath: self.spec_file_path(),
            }),
    {
        match parse_rust_file(content) {
            Some(ast) => Ok(ast),
            None => Err(Error::InvalidRustCode { filepath: self.file_path.clone() }),
        }
    }

    /// The path of the file this parser reads.
    pub fn file_path(&self) -> (res: &String)
        ensures
            res@ == self.spec_file_path(),
    {
        &self.file_path
    }

    /// The model that the syntax tree of the file describes, or the first error (see
    /// `spec_parse`); `None` where reading an item has no answer.
    pub fn try_parse(&self, ast: &SourceFile) -> (res: Option<Result<StateMachine, Error>>)
        ensures
            match spec_parse(*ast) {
                None => res is None,
                Some(Ok(m)) => res matches Some(Ok(sm)) && sm@ == m && sm.wf(),
                Some(Err(e)) => res matches Some(Err(er)) && er@ == e,
            },
    {
        let mut state_machine_model = StateMachine::new();
        let items = &ast.items;
        let mut i: usize = 0;
        while i < items.len()
            invariant
                items == &ast.items,
                i <= items@.len(),
                state_machine_model.wf(),
                spec_parse(*ast) == spec_parse_items_from(*ast, i as int, state_machine_model@),
            decreases items@.len() - i,
        {
            if let Item::Impl(trait_impl) = &items[i] {
                match try_get_trait_impl_type(trait_impl) {
                    None => {
                        return None;
                    },
                    Some(Err(e)) => {
                        return Some(Err(e));
                    },
                    Some(Ok(TraitImplSignatureInfo::State { state_tag, state_machine_name })) => {
                        if let Err(e) = check_state_machine_ownership(
                            state_machine_name,
                            &mut state_machine_model,
                        ) {
                            return Some(Err(e));
                        }
                        match try_fill_state_model(trait_impl, state_tag, &mut state_machine_model) {
                            None => {
                                return None;
                            },
                            Some(Err(e)) => {
                                return Some(Err(e));
                            },
                            Some(Ok(())) => {},
                        }
                    },
                    Some(Ok(TraitImplSignatureInfo::TopState { state_machine_name })) => {
                        if let Err(e) = check_state_machine_ownership(
                            state_machine_name,
                            &mut state_machine_model,
                        ) {
                            return Some(Err(e));
                        }
                        if let Err(e) = top_state::fill_top_state_model(
                            trait_impl,
                            &mut state_machine_model,
                        ) {
                            return Some(Err(e));
                        }
                    },
                    Some(Ok(TraitImplSignatureInfo::Other)) => {},
                }
            }
            i = i + 1;
        }
        Some(Ok(state_machine_model))
    }

    /// The model that the syntax tree of the file describes, or the first error (see
    /// `spec_parse`).
    pub fn parse(&self, ast: &SourceFile) -> (res: Result<StateMachine, Error>)
        requires
            spec_parse(*ast) is Some,
        ensures
            match spec_parse(*ast) {
                Some(Ok(m)) => res matches Ok(sm) && sm@ == m && sm.wf(),
                Some(Err(e)) => res matches Err(er) && er@ == e,
                None => false,
            },
    {
        self.try_parse(ast).unwrap()
    }

    /// What state trait an `impl` block implements (see `top_state::get_trait_impl_type`).
    /// The result does not carry the items of the `impl` block: the caller holds the block
    /// and reads `trait_impl.items` from it.
    pub fn get_trait_impl_type(trait_impl: &ItemImpl) -> (res: Result<TraitImplSignatureInfo, Error>)
        requires
            spec_get_trait_impl_type(*trait_impl) is Some,
        ensures
            Some(res) == spec_get_trait_impl_type(*trait_impl),
    {
        top_state::get_trait_impl_type(trait_impl)
    }

    /// Adds a state named `state_tag` to the model unless it has one (see
    /// `try_insert_state_into_model`, which this follows).
    pub fn try_insert_state_into_model(state_machine_model: &mut StateMachine, state_tag: String)
        requires
            old(state_machine_model).wf(),
        ensures
            final(state_machine_model).wf(),
            final(state_machine_model)@ == old(state_machine_model)@.with_state_named(state_tag@),
    {
        try_insert_state_into_model(state_machine_model, state_tag)
    }

    /// Reads a `TopState` implementation into the model, in the way that also adds the
    /// initial transition's target to the states (see `spec_fill_top_state_with_target`).
    ///
    /// This differs from `top_state::fill_top_state_model`, which `Parser::try_parse` uses:
    /// here an `init` function records only the target of its first initial transition
    /// (not the action before it), adds a state of that name to the model, and is an error
    /// only where no target is set after it; a target counts as set once an initial
    /// transition gave it, even with empty text.
    pub fn fill_top_state_model(trait_impl: &ItemImpl, state_machine_model: &mut StateMachine) -> (res:
        Result<(), Error>)
        requires
            old(state_machine_model).wf(),
        ensures
            final(state_machine_model).wf(),
            (final(state_machine_model)@, res) == spec_fill_top_state_with_target(
                *trait_impl,
                old(state_machine_model)@,
            ),
    {
        let mut target_set = !state_machine_model.top_state.init.target.as_str().is_empty();
        let items = &trait_impl.items;
        let mut i: usize = 0;
        while i < items.len()
            invariant
                items == &trait_impl.items,
                i <= items@.len(),
                state_machine_model.wf(),
                spec_fill_top_state_with_target(*trait_impl, old(state_machine_model)@)
                    == spec_fill_top_with_target_from(
                    *trait_impl,
                    i as int,
                    state_machine_model@,
                    target_set,
                ),
            decreases items@.len() - i,
        {
            match &items[i] {
                ImplItem::Type(type_) => {
                    if let Err(e) = top_state::parse_top_state_associated_type(
                        type_,
                        state_machine_model,
                    ) {
                        return Err(e);
                    }
                },
                ImplItem::Fn(fn_) => {
                    if ident_is(&fn_.ident, "init") {
                        if let Ok((target_state_tag, _action)) = init::parse_init_fn(fn_) {
                            try_insert_state_into_model(
                                state_machine_model,
                                target_state_tag.clone(),
                            );
                            state_machine_model.top_state.init.target = target_state_tag;
                            target_set = true;
                        }
                        if !target_set {
                            return Err(
                                Error::MissingInitTranCall {
                                    line: fn_.span_start.line,
                                    col: fn_.span_start.column,
                                },
                            );
                        }
                    }
                },
                ImplItem::Other => {},
            }
            i = i + 1;
        }
        if !target_set {
            Err(
                Error::MissingInitDef {
                    line: trait_impl.span_start.line,
                    col: trait_impl.span_start.column,
                },
            )
        } else if state_machine_model.top_state.evt_type_alias.is_none() {
            Err(
                Error::MissingEvtTypeDef {
                    line: trait_impl.span_start.line,
                    col: trait_impl.span_start.column,
                },
            )
        } else {
            Ok(())
        }
    }

    /// Takes the name of a state and the items of its `State` implementation, and leaves the
    /// model as it is: it reads nothing. The items of a state are read by
    /// `state::fill_state_model`, which takes the whole `impl` block (its errors carry the
    /// block's position).
    pub fn fill_state_model(
        state_tag: String,
        top_state_trait_impl_body: &Vec<ImplItem>,
        state_machine_model: &mut StateMachine,
    )
        ensures
            *final(state_machine_model) == *old(state_machine_model),
    {
    }
}

} // verus!
