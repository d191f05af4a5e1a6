//! The model of a hierarchical state machine that the parser fills in: the top
//! state, and for each state its entry, exit and init actions and the events it
//! handles.
//!
//! Each type has a view over `Seq<char>` in place of `String`, which the
//! contracts of the parser speak of.
use vstd::prelude::*;

verus! {

/// The characters of an optional string.
pub open spec fn opt_str_view(o: Option<String>) -> Option<Seq<char>> {
    match o {
        Some(s) => Some(s@),
        None => None,
    }
}

/// What follows an event handler or a branch of a condition.
#[derive(Debug, PartialEq, Eq)]
pub enum Next {
    /// A conditional choice between branches.
    Condition(Condition),
    /// A transition to a state.
    Target(TransitionTarget),
    /// The event is handled without a transition.
    Handled(),
    /// No transition and no `handled!` was reached.
    Unterminated(),
}

/// An `if` / `else if` / `else` chain.
#[derive(Debug, PartialEq, Eq)]
pub struct Condition {
    pub branches: Vec<ConditionalBranch>,
}

/// One branch of a condition: its guard (the source text of the condition, or `else`),
/// the last action before what follows, and what follows.
#[derive(Debug, PartialEq, Eq)]
pub struct ConditionalBranch {
    pub guard: String,
    pub action: Option<String>,
    pub next: Next,
}

/// The state that a transition leads to.
#[derive(Debug, PartialEq, Eq)]
pub struct TransitionTarget {
    pub state_name: String,
}

/// An init transition: the action before it, and its target state.
#[derive(Debug, PartialEq, Eq)]
pub struct Init {
    pub action: Option<String>,
    pub target: String,
}

/// The entry action of a state.
#[derive(Debug, PartialEq, Eq)]
pub struct Entry {
    pub action: Option<String>,
}

/// The exit action of a state.
#[derive(Debug, PartialEq, Eq)]
pub struct Exit {
    pub action: Option<String>,
}

/// How a state reacts to one event variant.
#[derive(Debug, PartialEq, Eq)]
pub struct EvtCatcher {
    pub evt_type_name: String,
    pub evt_variant_name: String,
    pub action: Option<String>,
    pub next: Next,
}

/// The events a state handles, in the order of the match arms.
#[derive(Debug, PartialEq, Eq)]
pub struct EvtHandler {
    pub evt_catchers: Vec<EvtCatcher>,
}

/// One state of the state machine.
#[derive(Debug, PartialEq, Eq)]
pub struct State {
    pub name: String,
    pub entry: Option<Entry>,
    pub exit: Option<Exit>,
    pub init: Option<Init>,
    pub evt_handler: EvtHandler,
}

/// The top state: the event type and the initial transition.
#[derive(Debug, PartialEq, Eq)]
pub struct TopState {
    pub evt_type_alias: Option<String>,
    pub init: Init,
}

/// A whole state machine: its name, its top state and its states, at most one per name.
#[derive(Debug, PartialEq, Eq)]
pub struct StateMachine {
    pub name: String,
    pub top_state: TopState,
    pub states: Vec<State>,
}

// ---------------------------------------------------------------------------
// Views
// ---------------------------------------------------------------------------

pub enum NextView {
    Condition(Seq<BranchView>),
    Target(Seq<char>),
    Handled,
    Unterminated,
}

pub struct BranchView {
    pub guard: Seq<char>,
    pub action: Option<Seq<char>>,
    pub next: NextView,
}

pub struct CatcherView {
    pub evt_type_name: Seq<char>,
    pub evt_variant_name: Seq<char>,
    pub action: Option<Seq<char>>,
    pub next: NextView,
}

pub struct InitView {
    pub action: Option<Seq<char>>,
    pub target: Seq<char>,
}

pub struct EntryView {
    pub action: Option<Seq<char>>,
}

pub struct ExitView {
    pub action: Option<Seq<char>>,
}

pub struct StateView {
    pub name: Seq<char>,
    pub entry: Option<EntryView>,
    pub exit: Option<ExitView>,
    pub init: Option<InitView>,
    pub evt_handler: Seq<CatcherView>,
}

pub struct TopStateView {
    pub evt_type_alias: Option<Seq<char>>,
    pub init: InitView,
}

pub struct StateMachineView {
    pub name: Seq<char>,
    pub top_state: TopStateView,
    pub states: Seq<StateView>,
}

pub open spec fn next_view(n: Next) -> NextView
    decreases n,
{
    match n {
        Next::Condition(c) => NextView::Condition(branches_view(c.branches@)),
        Next::Target(t) => NextView::Target(t.state_name@),
        Next::Handled() => NextView::Handled,
        Next::Unterminated() => NextView::Unterminated,
    }
}

pub open spec fn branches_view(bs: Seq<ConditionalBranch>) -> Seq<BranchView>
    decreases bs,
{
    if bs.len() == 0 {
        Seq::empty()
    } else {
        branches_view(bs.drop_last()).push(
            BranchView {
                guard: bs.last().guard@,
                action: opt_str_view(bs.last().action),
                next: next_view(bs.last().next),
            },
        )
    }
}

pub open spec fn catchers_view(cs: Seq<EvtCatcher>) -> Seq<CatcherView>
    decreases cs.len(),
{
    if cs.len() == 0 {
        Seq::empty()
    } else {
        catchers_view(cs.drop_last()).push(cs.last()@)
    }
}

pub open spec fn states_view(ss: Seq<State>) -> Seq<StateView>
    decreases ss.len(),
{
    if ss.len() == 0 {
        Seq::empty()
    } else {
        states_view(ss.drop_last()).push(ss.last()@)
    }
}

impl View for Next {
    type V = NextView;

    open spec fn view(&self) -> NextView {
        next_view(*self)
    }
}

impl View for ConditionalBranch {
    type V = BranchView;

    open spec fn view(&self) -> BranchView {
        BranchView { guard: self.guard@, action: opt_str_view(self.action), next: self.next@ }
    }
}

impl View for EvtCatcher {
    type V = CatcherView;

    open spec fn view(&self) -> CatcherView {
        CatcherView {
            evt_type_name: self.evt_type_name@,
            evt_variant_name: self.evt_variant_name@,
            action: opt_str_view(self.action),
            next: self.next@,
        }
    }
}

impl View for EvtHandler {
    type V = Seq<CatcherView>;

    open spec fn view(&self) -> Seq<CatcherView> {
        catchers_view(self.evt_catchers@)
    }
}

impl View for Init {
    type V = InitView;

    open spec fn view(&self) -> InitView {
        InitView { action: opt_str_view(self.action), target: self.target@ }
    }
}

impl View for Entry {
    type V = EntryView;

    open spec fn view(&self) -> EntryView {
        EntryView { action: opt_str_view(self.action) }
    }
}

impl View for Exit {
    type V = ExitView;

    open spec fn view(&self) -> ExitView {
        ExitView { action: opt_str_view(self.action) }
    }
}

impl View for State {
    type V = StateView;

    open spec fn view(&self) -> StateView {
        StateView {
            name: self.name@,
            entry: match self.entry {
                Some(e) => Some(e@),
                None => None,
            },
            exit: match self.exit {
                Some(e) => Some(e@),
                None => None,
            },
            init: match self.init {
                Some(i) => Some(i@),
                None => None,
            },
            evt_handler: self.evt_handler@,
        }
    }
}

impl View for TopState {
    type V = TopStateView;

    open spec fn view(&self) -> TopStateView {
        TopStateView { evt_type_alias: opt_str_view(self.evt_type_alias), init: self.init@ }
    }
}

impl View for StateMachine {
    type V = StateMachineView;

    open spec fn view(&self) -> StateMachineView {
        StateMachineView {
            name: self.name@,
            top_state: self.top_state@,
            states: states_view(self.states@),
        }
    }
}

impl StateView {
    /// A state that has only a name.
    pub open spec fn named(name: Seq<char>) -> StateView {
        StateView { name, entry: None, exit: None, init: None, evt_handler: Seq::empty() }
    }
}

impl StateMachineView {
    /// No two states share a name.
    pub open spec fn wf(self) -> bool {
        forall|i: int, j: int|
            0 <= i < j < self.states.len() ==> #[trigger] self.states[i].name
                != #[trigger] self.states[j].name
    }

    /// Some state has this name.
    pub open spec fn has_state(self, name: Seq<char>) -> bool {
        exists|i: int| 0 <= i < self.states.len() && #[trigger] self.states[i].name == name
    }

    /// The same state machine with `states[i]` replaced.
    pub open spec fn with_state(self, i: int, s: StateView) -> StateMachineView {
        StateMachineView { states: self.states.update(i, s), ..self }
    }
}

impl StateMachine {
    /// No two states share a name.
    pub open spec fn wf(&self) -> bool {
        self@.wf()
    }
}

pub proof fn lemma_states_view_len(ss: Seq<State>)
    ensures
        states_view(ss).len() == ss.len(),
        forall|i: int| 0 <= i < ss.len() ==> #[trigger] states_view(ss)[i] == ss[i]@,
    decreases ss.len(),
{
    if ss.len() > 0 {
        lemma_states_view_len(ss.drop_last());
    }
}

pub proof fn lemma_catchers_view_len(cs: Seq<EvtCatcher>)
    ensures
        catchers_view(cs).len() == cs.len(),
        forall|i: int| 0 <= i < cs.len() ==> #[trigger] catchers_view(cs)[i] == cs[i]@,
    decreases cs.len(),
{
    if cs.len() > 0 {
        lemma_catchers_view_len(cs.drop_last());
    }
}

pub proof fn lemma_branches_view_len(bs: Seq<ConditionalBranch>)
    ensures
        branches_view(bs).len() == bs.len(),
        forall|i: int| 0 <= i < bs.len() ==> #[trigger] branches_view(bs)[i] == bs[i]@,
    decreases bs.len(),
{
    if bs.len() > 0 {
        lemma_branches_view_len(bs.drop_last());
    }
}

impl Init {
    pub fn new() -> (res: Init)
        ensures
            res@ == (InitView { action: None, target: Seq::empty() }),
    {
        Init { action: None, target: String::new() }
    }
}

impl EvtHandler {
    pub fn new() -> (res: EvtHandler)
        ensures
            res@ == Seq::<CatcherView>::empty(),
    {
        let res = EvtHandler { evt_catchers: Vec::new() };
        proof {
            lemma_catchers_view_len(res.evt_catchers@);
        }
        res
    }
}

impl State {
    pub fn new() -> (res: State)
        ensures
            res@ == StateView::named(Seq::empty()),
    {
        State { name: String::new(), entry: None, exit: None, init: None, evt_handler: EvtHandler::new() }
    }
}

impl StateMachine {
    pub fn new() -> (res: StateMachine)
        ensures
            res@ == (StateMachineView {
                name: Seq::empty(),
                top_state: TopStateView {
                    evt_type_alias: None,
                    init: InitView { action: None, target: Seq::empty() },
                },
                states: Seq::empty(),
            }),
            res.wf(),
    {
        let res = StateMachine {
            name: String::new(),
            top_state: TopState { evt_type_alias: None, init: Init::new() },
            states: Vec::new(),
        };
        proof {
            lemma_states_view_len(res.states@);
        }
        res
    }
}

} // verus!
