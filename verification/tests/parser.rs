use hsm_parser::errors::Error;
use hsm_parser::model::{Entry, Exit, Init, Next, State, StateMachine, TopState, TransitionTarget};
use hsm_parser::parser::init::parse_init_fn;
use hsm_parser::parser::state::fill_state_model;
use hsm_parser::parser::top_state::{fill_top_state_model, get_trait_impl_type};
use hsm_parser::parser::{
    check_state_machine_ownership, parse_entry_or_exit_fn, try_insert_state_into_model, Parser,
    TraitImplSignatureInfo,
};
use hsm_parser::syntax::{
    Arm, Block, Expr, ExprKind, ExprMacro, ExprMatch, GenericArgument, ImplItem, ImplItemFn,
    ImplItemType, Item, ItemImpl, LineColumn, Pat, Path, PathArguments, PathArgumentsKind,
    PathSegment, SourceFile, Stmt, StmtKind, Type,
};

fn s(text: &str) -> String {
    text.to_string()
}

fn pos(line: usize, column: usize) -> LineColumn {
    LineColumn { line, column }
}

fn seg(ident: &str) -> PathSegment {
    PathSegment {
        ident: s(ident),
        arguments: PathArguments { kind: PathArgumentsKind::Empty, span_start: pos(1, 0) },
    }
}

fn path(idents: &[&str]) -> Path {
    Path { leading_colon: false, segments: idents.iter().map(|id| seg(id)).collect() }
}

fn ty(idents: &[&str]) -> Type {
    Type::Path(path(idents))
}

fn state_trait(tag: &str) -> Path {
    Path {
        leading_colon: false,
        segments: vec![PathSegment {
            ident: s("State"),
            arguments: PathArguments {
                kind: PathArgumentsKind::AngleBracketed(vec![GenericArgument::Type(ty(&[tag]))]),
                span_start: pos(3, 10),
            },
        }],
    }
}

fn expr_stmt(e: Expr, text: &str) -> Stmt {
    Stmt { kind: StmtKind::Expr(e), text: Some(s(text)) }
}

fn other_stmt(text: &str) -> Stmt {
    expr_stmt(Expr { kind: ExprKind::Other, text: Some(s(text)) }, text)
}

fn mac(name: &str, tokens: &str) -> Expr {
    Expr {
        kind: ExprKind::Macro(ExprMacro { path: path(&[name]), tokens: s(tokens) }),
        text: Some(format!("{}!({})", name, tokens)),
    }
}

fn func(name: &str, stmts: Vec<Stmt>, line: usize) -> ImplItem {
    ImplItem::Fn(ImplItemFn { ident: s(name), block: Block { stmts }, span_start: pos(line, 4) })
}

fn init_fn(target: &str, line: usize) -> ImplItem {
    func(
        "init",
        vec![other_stmt("setup();"), expr_stmt(mac("init_transition", target), "init_transition!(..)")],
        line,
    )
}

fn evt_type(alias: &str) -> ImplItem {
    ImplItem::Type(ImplItemType { ident: s("Evt"), ty: ty(&["events", alias]), span_start: pos(2, 4) })
}

fn handle_fn(variant: &str, target: &str) -> ImplItem {
    let arm = Arm {
        pat: Pat::Path(path(&["Evt", variant]), pos(20, 12)),
        body: Box::new(Expr {
            kind: ExprKind::Block(Block { stmts: vec![expr_stmt(mac("transition", target), "transition!(..)")] }),
            text: Some(s("{ .. }")),
        }),
    };
    func(
        "handle",
        vec![expr_stmt(
            Expr {
                kind: ExprKind::Match(ExprMatch {
                    expr: Box::new(Expr { kind: ExprKind::Path(path(&["evt"])), text: Some(s("evt")) }),
                    arms: vec![arm],
                }),
                text: Some(s("match evt { .. }")),
            },
            "match evt { .. }",
        )],
        19,
    )
}

fn impl_block(trait_: Option<Path>, self_ty: Type, items: Vec<ImplItem>, line: usize) -> ItemImpl {
    ItemImpl { trait_, self_ty, items, span_start: pos(line, 0) }
}

fn top_state_impl(machine: &str, items: Vec<ImplItem>, line: usize) -> Item {
    Item::Impl(impl_block(Some(path(&["TopState"])), ty(&[machine]), items, line))
}

fn state_impl(tag: &str, machine: &str, items: Vec<ImplItem>, line: usize) -> Item {
    Item::Impl(impl_block(Some(state_trait(tag)), ty(&[machine]), items, line))
}

fn target(name: &str) -> Next {
    Next::Target(TransitionTarget { state_name: s(name) })
}

fn state_named<'a>(m: &'a StateMachine, name: &str) -> Option<&'a State> {
    m.states.iter().find(|st| st.name == name)
}

fn sample_file() -> SourceFile {
    SourceFile {
        items: vec![
            Item::Other,
            top_state_impl("Basic", vec![evt_type("BasicEvt"), init_fn("S0", 4)], 1),
            state_impl(
                "S0",
                "Basic",
                vec![
                    func("entry", vec![other_stmt("on_entry();")], 11),
                    func("exit", vec![other_stmt("a();"), other_stmt("on_exit();")], 12),
                    handle_fn("A", "S1"),
                ],
                10,
            ),
            state_impl("S1", "Basic", vec![handle_fn("B", "S0")], 30),
            Item::Impl(impl_block(Some(path(&["Debug"])), ty(&["Basic"]), vec![], 40)),
        ],
    }
}

#[test]
fn parse_whole_file() {
    let parser = Parser::new(&s("basic.rs"));
    let m = parser.parse(&sample_file()).unwrap();
    assert_eq!(m.name, "Basic");
    assert_eq!(
        m.top_state,
        TopState {
            evt_type_alias: Some(s("BasicEvt")),
            init: Init { action: Some(s("setup();")), target: s("S0") },
        }
    );
    assert_eq!(m.states.len(), 2);
    let s0 = state_named(&m, "S0").unwrap();
    assert_eq!(s0.entry, Some(Entry { action: Some(s("on_entry();")) }));
    assert_eq!(s0.exit, Some(Exit { action: Some(s("on_exit();")) }));
    assert_eq!(s0.init, None);
    assert_eq!(s0.evt_handler.evt_catchers.len(), 1);
    assert_eq!(s0.evt_handler.evt_catchers[0].evt_variant_name, "A");
    assert_eq!(s0.evt_handler.evt_catchers[0].next, target("S1"));
    let s1 = state_named(&m, "S1").unwrap();
    assert_eq!(s1.evt_handler.evt_catchers[0].evt_type_name, "Evt");
    assert_eq!(s1.evt_handler.evt_catchers[0].next, target("S0"));
}

#[test]
fn parse_model_has_a_state_per_state_impl_and_distinct_names() {
    // Two implementations for the same tag give one state.
    let mut file = sample_file();
    file.items.push(state_impl("S1", "Basic", vec![handle_fn("C", "S0")], 50));
    let m = Parser::new(&s("x.rs")).parse(&file).unwrap();
    assert_eq!(m.states.len(), 2);
    let s1 = state_named(&m, "S1").unwrap();
    assert_eq!(s1.evt_handler.evt_catchers[0].evt_variant_name, "C");
}

#[test]
fn parse_empty_file_gives_empty_model() {
    let m = Parser::new(&s("x.rs")).parse(&SourceFile { items: vec![] }).unwrap();
    assert_eq!(m, StateMachine::new());
}

#[test]
fn parse_two_state_machines_is_concurrent_impl() {
    let mut file = sample_file();
    file.items.push(state_impl("S2", "Other", vec![handle_fn("B", "S0")], 60));
    assert_eq!(
        Parser::new(&s("x.rs")).parse(&file),
        Err(Error::ConcurrentStateMachineImpl {
            expected_state_machine_name: s("Basic"),
            found_state_machine_name: s("Other"),
        })
    );
}

#[test]
fn try_parse_inherent_impl_has_no_answer() {
    let file = SourceFile {
        items: vec![Item::Impl(impl_block(None, ty(&["Basic"]), vec![], 1))],
    };
    assert!(Parser::new(&s("x.rs")).try_parse(&file).is_none());
}

#[test]
fn try_parse_agrees_with_parse() {
    let parser = Parser::new(&s("x.rs"));
    assert_eq!(parser.try_parse(&sample_file()), Some(parser.parse(&sample_file())));
    assert_eq!(parser.file_path(), "x.rs");
}

#[test]
fn state_without_handle_is_missing_evt_handler() {
    let file = SourceFile { items: vec![state_impl("S0", "Basic", vec![func("entry", vec![], 3)], 7)] };
    assert_eq!(Parser::new(&s("x.rs")).parse(&file), Err(Error::MissingEvtHandler { line: 7, col: 0 }));
}

#[test]
fn fill_state_model_without_handle_still_sets_entry() {
    let mut m = StateMachine::new();
    let ti = impl_block(Some(state_trait("S0")), ty(&["Basic"]), vec![func("entry", vec![other_stmt("e();")], 3)], 7);
    assert_eq!(fill_state_model(&ti, s("S0"), &mut m), Err(Error::MissingEvtHandler { line: 7, col: 0 }));
    assert_eq!(m.states.len(), 1);
    assert_eq!(m.states[0].entry, Some(Entry { action: Some(s("e();")) }));
    assert!(m.states[0].evt_handler.evt_catchers.is_empty());
}

#[test]
fn top_state_without_init_is_missing_init_def() {
    let file = SourceFile { items: vec![top_state_impl("Basic", vec![evt_type("E")], 5)] };
    assert_eq!(Parser::new(&s("x.rs")).parse(&file), Err(Error::MissingInitDef { line: 5, col: 0 }));
}

#[test]
fn top_state_without_evt_is_missing_evt_type_def() {
    let file = SourceFile { items: vec![top_state_impl("Basic", vec![init_fn("S0", 3)], 5)] };
    assert_eq!(Parser::new(&s("x.rs")).parse(&file), Err(Error::MissingEvtTypeDef { line: 5, col: 0 }));
}

#[test]
fn top_state_other_associated_type_is_invalid_evt_type_def() {
    let bad = ImplItem::Type(ImplItemType { ident: s("Other"), ty: ty(&["E"]), span_start: pos(2, 8) });
    let mut m = StateMachine::new();
    let ti = impl_block(Some(path(&["TopState"])), ty(&["Basic"]), vec![bad, init_fn("S0", 3)], 1);
    assert_eq!(fill_top_state_model(&ti, &mut m), Err(Error::InvalidEvtTypeDef { line: 2, col: 8 }));
    assert_eq!(m.top_state.init.target, "");
}

#[test]
fn init_without_transition_is_missing_init_tran_call() {
    let f = ImplItemFn { ident: s("init"), block: Block { stmts: vec![other_stmt("x();")] }, span_start: pos(8, 4) };
    assert_eq!(parse_init_fn(&f), Err(Error::MissingInitTranCall { line: 8, col: 4 }));
}

#[test]
fn init_with_return_transition() {
    let f = ImplItemFn {
        ident: s("init"),
        block: Block {
            stmts: vec![
                other_stmt("a();"),
                other_stmt("b();"),
                expr_stmt(
                    Expr { kind: ExprKind::Return(Some(Box::new(mac("init_transition", "S9")))), text: None },
                    "return init_transition!(S9)",
                ),
                other_stmt("c();"),
            ],
        },
        span_start: pos(8, 4),
    };
    assert_eq!(parse_init_fn(&f), Ok((s("S9"), Some(s("b();")))));
}

#[test]
fn entry_or_exit_action_is_last_statement() {
    let f = ImplItemFn {
        ident: s("exit"),
        block: Block { stmts: vec![other_stmt("a();"), other_stmt("b();")] },
        span_start: pos(1, 0),
    };
    assert_eq!(parse_entry_or_exit_fn(&f), Some(s("b();")));
    let empty = ImplItemFn { ident: s("exit"), block: Block { stmts: vec![] }, span_start: pos(1, 0) };
    assert_eq!(parse_entry_or_exit_fn(&empty), None);
}

#[test]
fn trait_impl_kinds() {
    let st = impl_block(Some(state_trait("S0")), ty(&["m", "Basic"]), vec![], 1);
    assert_eq!(
        get_trait_impl_type(&st),
        Ok(TraitImplSignatureInfo::State { state_tag: s("S0"), state_machine_name: s("Basic") })
    );
    let top = impl_block(Some(path(&["TopState"])), ty(&["Basic"]), vec![], 1);
    assert_eq!(
        Parser::get_trait_impl_type(&top),
        Ok(TraitImplSignatureInfo::TopState { state_machine_name: s("Basic") })
    );
    let other = impl_block(Some(path(&["Clone"])), ty(&["Basic"]), vec![], 1);
    assert_eq!(get_trait_impl_type(&other), Ok(TraitImplSignatureInfo::Other));
}

#[test]
fn state_without_tag_is_invalid_state_tag() {
    let ti = impl_block(Some(path(&["State"])), ty(&["Basic"]), vec![], 1);
    assert_eq!(get_trait_impl_type(&ti), Err(Error::InvalidStateTag { line: 1, col: 0 }));
}

#[test]
fn non_path_self_type_is_invalid_state_machine_name() {
    let ti = impl_block(Some(path(&["TopState"])), Type::Other(pos(4, 17)), vec![], 4);
    assert_eq!(get_trait_impl_type(&ti), Err(Error::InvalidStateMachineName { line: 4, col: 17 }));
}

#[test]
fn ownership_is_taken_once_and_kept() {
    let mut m = StateMachine::new();
    assert_eq!(check_state_machine_ownership(s("Basic"), &mut m), Ok(()));
    assert_eq!(m.name, "Basic");
    assert_eq!(check_state_machine_ownership(s("Basic"), &mut m), Ok(()));
    assert_eq!(
        check_state_machine_ownership(s("Other"), &mut m),
        Err(Error::ConcurrentStateMachineImpl {
            expected_state_machine_name: s("Basic"),
            found_state_machine_name: s("Other"),
        })
    );
    assert_eq!(m.name, "Basic");
}

#[test]
fn insert_state_is_idempotent() {
    let mut m = StateMachine::new();
    try_insert_state_into_model(&mut m, s("S0"));
    try_insert_state_into_model(&mut m, s("S1"));
    Parser::try_insert_state_into_model(&mut m, s("S0"));
    assert_eq!(m.states.len(), 2);
    assert_eq!(m.states[0], State { name: s("S0"), ..State::new() });
    assert_eq!(m.states[1].name, "S1");
}

#[test]
fn model_constructors() {
    assert_eq!(Init::new(), Init { action: None, target: s("") });
    let st = State::new();
    assert_eq!(st.name, "");
    assert!(st.entry.is_none() && st.exit.is_none() && st.init.is_none());
    let m = StateMachine::new();
    assert_eq!(m.name, "");
    assert!(m.states.is_empty());
    assert_eq!(m.top_state.evt_type_alias, None);
}

#[test]
fn path_helpers() {
    assert_eq!(path(&["evt"]).get_ident(), Some(&s("evt")));
    assert_eq!(path(&["a", "evt"]).get_ident(), None);
    let mut lead = path(&["evt"]);
    lead.leading_colon = true;
    assert_eq!(lead.get_ident(), None);
    assert_eq!(path(&["a", "b"]).last_segment().map(|x| x.ident.clone()), Some(s("b")));
    assert!(path(&[]).last_segment().is_none());
}

#[test]
fn parse_source_accepts_rust_and_rejects_other_text() {
    let parser = Parser::new(&s("machine.rs"));
    assert!(parser.parse_source("impl TopState for Basic { type Evt = BasicEvt; }").is_ok());
    assert!(parser.parse_source("").is_ok());
    match parser.parse_source("impl TopState for {") {
        Err(e) => assert_eq!(e, Error::InvalidRustCode { filepath: s("machine.rs") }),
        Ok(_) => panic!("expected an error"),
    }
}

#[test]
fn fill_state_model_keeps_other_states() {
    let mut m = StateMachine::new();
    let s0 = impl_block(Some(state_trait("S0")), ty(&["Basic"]), vec![handle_fn("A", "S1")], 1);
    let s1 = impl_block(Some(state_trait("S1")), ty(&["Basic"]), vec![init_fn("S2", 5), handle_fn("B", "S0")], 4);
    assert_eq!(fill_state_model(&s0, s("S0"), &mut m), Ok(()));
    assert_eq!(fill_state_model(&s1, s("S1"), &mut m), Ok(()));
    assert_eq!(m.states.len(), 2);
    assert_eq!(m.states[0].evt_handler.evt_catchers[0].evt_variant_name, "A");
    assert_eq!(m.states[1].init, Some(Init { action: Some(s("setup();")), target: s("S2") }));
    let mut top = StateMachine::new();
    let ti = impl_block(Some(path(&["TopState"])), ty(&["Basic"]), vec![evt_type("E"), init_fn("S0", 3)], 1);
    assert_eq!(fill_top_state_model(&ti, &mut top), Ok(()));
    assert_eq!(top.top_state.evt_type_alias, Some(s("E")));
    assert!(top.states.is_empty());
}

fn return_init_fn(target: &str, line: usize) -> ImplItem {
    func(
        "init",
        vec![expr_stmt(
            Expr { kind: ExprKind::Return(Some(Box::new(mac("init_transition", target)))), text: None },
            "return init_transition!(..)",
        )],
        line,
    )
}

#[test]
fn parser_fill_top_state_model_adds_init_target_state() {
    let mut m = StateMachine::new();
    let ti = impl_block(Some(path(&["TopState"])), ty(&["Sm"]), vec![evt_type("BasicEvt"), return_init_fn("S0", 3)], 1);
    assert_eq!(Parser::fill_top_state_model(&ti, &mut m), Ok(()));
    assert_eq!(m.top_state.evt_type_alias, Some(s("BasicEvt")));
    assert_eq!(m.top_state.init.target, "S0");
    assert_eq!(m.top_state.init.action, None);
    assert_eq!(m.states.len(), 1);
    assert_eq!(m.states[0], State { name: s("S0"), ..State::new() });
    assert_eq!(m.name, "");
}

#[test]
fn parser_fill_top_state_model_keeps_target_state_on_missing_evt() {
    let mut m = StateMachine::new();
    let ti = impl_block(Some(path(&["TopState"])), ty(&["Sm"]), vec![init_fn("S0", 3)], 9);
    assert_eq!(Parser::fill_top_state_model(&ti, &mut m), Err(Error::MissingEvtTypeDef { line: 9, col: 0 }));
    assert_eq!(m.top_state.init.target, "S0");
    assert_eq!(m.states.len(), 1);
    assert_eq!(m.states[0].name, "S0");
}

#[test]
fn parser_fill_top_state_model_init_without_transition() {
    let mut m = StateMachine::new();
    let init = func("init", vec![other_stmt("x();")], 3);
    let ti = impl_block(Some(path(&["TopState"])), ty(&["Sm"]), vec![evt_type("E"), init], 1);
    assert_eq!(Parser::fill_top_state_model(&ti, &mut m), Err(Error::MissingInitTranCall { line: 3, col: 4 }));
    assert!(m.states.is_empty());
    // With a target already set, an init function without a transition is no error.
    let mut m = StateMachine::new();
    let ti = impl_block(
        Some(path(&["TopState"])),
        ty(&["Sm"]),
        vec![evt_type("E"), init_fn("S0", 2), func("init", vec![other_stmt("x();")], 3)],
        1,
    );
    assert_eq!(Parser::fill_top_state_model(&ti, &mut m), Ok(()));
    assert_eq!(m.top_state.init.target, "S0");
    // Without any init function.
    let mut m = StateMachine::new();
    let ti = impl_block(Some(path(&["TopState"])), ty(&["Sm"]), vec![evt_type("E")], 6);
    assert_eq!(Parser::fill_top_state_model(&ti, &mut m), Err(Error::MissingInitDef { line: 6, col: 0 }));
}

#[test]
fn parser_fill_state_model_leaves_model_as_it_is() {
    let mut m = StateMachine::new();
    try_insert_state_into_model(&mut m, s("S0"));
    let items = vec![handle_fn("A", "S1")];
    Parser::fill_state_model(s("S1"), &items, &mut m);
    let mut expected = StateMachine::new();
    try_insert_state_into_model(&mut expected, s("S0"));
    assert_eq!(m, expected);
}

#[test]
fn parser_fill_top_state_model_empty_init_target_counts_as_set() {
    let mut m = StateMachine::new();
    let ti = impl_block(Some(path(&["TopState"])), ty(&["Sm"]), vec![evt_type("E"), init_fn("", 3)], 1);
    assert_eq!(Parser::fill_top_state_model(&ti, &mut m), Ok(()));
    assert_eq!(m.top_state.init.target, "");
    assert_eq!(m.states.len(), 1);
    assert_eq!(m.states[0].name, "");
}
