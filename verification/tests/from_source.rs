//! The parser on Rust source text: read by `syn` (through `Parser::parse_source`) and
//! converted to the library's syntax tree as the command line front end converts it.
use proc_macro2::Span;
use syn::spanned::Spanned;

use hsm_parser::errors::Error;
use hsm_parser::model::{Condition, ConditionalBranch, Entry, Init, Next, TransitionTarget};
use hsm_parser::parser::Parser;
use hsm_parser::parser::state::handle::parse_match_arm_body;
use hsm_parser::syntax as sx;

fn start(span: Span) -> sx::LineColumn {
    let line_col = span.start();
    sx::LineColumn { line: line_col.line, column: line_col.column }
}

fn lower_file(f: &syn::File) -> sx::SourceFile {
    sx::SourceFile { items: f.items.iter().map(item).collect() }
}

fn item(i: &syn::Item) -> sx::Item {
    match i {
        syn::Item::Impl(item_impl) => sx::Item::Impl(impl_block(item_impl)),
        _ => sx::Item::Other,
    }
}

fn impl_block(i: &syn::ItemImpl) -> sx::ItemImpl {
    sx::ItemImpl {
        trait_: i.trait_.as_ref().map(|t| path(&t.1)),
        self_ty: ty(&i.self_ty),
        items: i.items.iter().map(impl_item).collect(),
        span_start: start(i.span()),
    }
}

fn path(p: &syn::Path) -> sx::Path {
    sx::Path {
        leading_colon: p.leading_colon.is_some(),
        segments: p.segments.iter().map(segment).collect(),
    }
}

fn segment(s: &syn::PathSegment) -> sx::PathSegment {
    sx::PathSegment { ident: s.ident.to_string(), arguments: path_arguments(&s.arguments) }
}

fn path_arguments(a: &syn::PathArguments) -> sx::PathArguments {
    let kind = match a {
        syn::PathArguments::None => sx::PathArgumentsKind::Empty,
        syn::PathArguments::AngleBracketed(ab) => {
            sx::PathArgumentsKind::AngleBracketed(ab.args.iter().map(generic_argument).collect())
        }
        syn::PathArguments::Parenthesized(_) => sx::PathArgumentsKind::Parenthesized,
    };
    sx::PathArguments { kind, span_start: start(a.span()) }
}

fn generic_argument(g: &syn::GenericArgument) -> sx::GenericArgument {
    match g {
        syn::GenericArgument::Type(t) => sx::GenericArgument::Type(ty(t)),
        _ => sx::GenericArgument::Other,
    }
}

fn ty(t: &syn::Type) -> sx::Type {
    match t {
        syn::Type::Path(type_path) => sx::Type::Path(path(&type_path.path)),
        _ => sx::Type::Other(start(t.span())),
    }
}

fn impl_item(i: &syn::ImplItem) -> sx::ImplItem {
    match i {
        syn::ImplItem::Type(t) => sx::ImplItem::Type(sx::ImplItemType {
            ident: t.ident.to_string(),
            ty: ty(&t.ty),
            span_start: start(t.span()),
        }),
        syn::ImplItem::Fn(f) => sx::ImplItem::Fn(sx::ImplItemFn {
            ident: f.sig.ident.to_string(),
            block: block(&f.block),
            span_start: start(f.span()),
        }),
        _ => sx::ImplItem::Other,
    }
}

fn block(b: &syn::Block) -> sx::Block {
    sx::Block { stmts: b.stmts.iter().map(stmt).collect() }
}

fn stmt(s: &syn::Stmt) -> sx::Stmt {
    let kind = match s {
        syn::Stmt::Local(_) => sx::StmtKind::Local,
        syn::Stmt::Item(_) => sx::StmtKind::Item,
        syn::Stmt::Expr(e, _) => sx::StmtKind::Expr(expr(e)),
        syn::Stmt::Macro(_) => sx::StmtKind::Macro,
    };
    sx::Stmt { kind, text: s.span().source_text() }
}

fn expr(e: &syn::Expr) -> sx::Expr {
    let kind = match e {
        syn::Expr::Macro(m) => sx::ExprKind::Macro(sx::ExprMacro {
            path: path(&m.mac.path),
            tokens: m.mac.tokens.to_string(),
        }),
        syn::Expr::Return(r) => sx::ExprKind::Return(r.expr.as_ref().map(|inner| Box::new(expr(inner)))),
        syn::Expr::If(i) => sx::ExprKind::If(expr_if(i)),
        syn::Expr::Block(b) => sx::ExprKind::Block(block(&b.block)),
        syn::Expr::Match(m) => sx::ExprKind::Match(sx::ExprMatch {
            expr: Box::new(expr(&m.expr)),
            arms: m.arms.iter().map(arm).collect(),
        }),
        syn::Expr::Path(p) => sx::ExprKind::Path(path(&p.path)),
        _ => sx::ExprKind::Other,
    };
    sx::Expr { kind, text: e.span().source_text() }
}

fn expr_if(i: &syn::ExprIf) -> sx::ExprIf {
    sx::ExprIf {
        cond: Box::new(expr(&i.cond)),
        then_branch: block(&i.then_branch),
        else_branch: i.else_branch.as_ref().map(|(_, e)| Box::new(expr(e))),
    }
}

fn arm(a: &syn::Arm) -> sx::Arm {
    sx::Arm { pat: pat(&a.pat), body: Box::new(expr(&a.body)) }
}

fn pat(p: &syn::Pat) -> sx::Pat {
    match p {
        syn::Pat::Wild(_) => sx::Pat::Wild,
        syn::Pat::Path(pat_path) => sx::Pat::Path(path(&pat_path.path), start(p.span())),
        _ => sx::Pat::Other,
    }
}

fn string(text: &str) -> String {
    String::from(text)
}

fn test_parse_match_arm_body_cmp(input: &str, expected: (Next, Option<String>)) {
    let stream: proc_macro2::TokenStream = input.parse().unwrap();
    let ast: syn::Arm = syn::parse2(stream).unwrap();
    let obtained_res = parse_match_arm_body(&expr(&ast.body)).unwrap();
    if obtained_res != expected {
        println!(" EXPECTED \n{:#?}", expected);
        println!("---------------------------------");
        println!(" GOT \n{:#?}", obtained_res);
        panic!("Parsing results do not match")
    }
}

#[test]
fn test_parse_match_arm_body() {
    {
        let code_to_be_parsed = r#"
            BasicEvt::A =>{
                let a: u8 = 0;
                if a==3 && call_x() {
                    call_fn();
                    transition!(S2)
                }
                else if a == 2{
                    return handled!()
                }
                else{
                    println!("S0-HANDLES-A");
                    return transition!(S1)
                }
            } 
            "#;

        let expected_parsing_result = (
            Next::Condition(Condition {
                branches: vec![
                    ConditionalBranch {
                        guard: string("a==3 && call_x()"),
                        action: Some(string("call_fn()")),
                        next: Next::Target(TransitionTarget { state_name: string("S2") }),
                    },
                    ConditionalBranch { guard: string("a == 2"), action: None, next: Next::Handled() },
                    ConditionalBranch {
                        guard: string("else"),
                        action: Some(string("println!(\"S0-HANDLES-A\");")),
                        next: Next::Target(TransitionTarget { state_name: string("S1") }),
                    },
                ],
            }),
            Some(string("let a: u8 = 0;")),
        );

        test_parse_match_arm_body_cmp(code_to_be_parsed, expected_parsing_result);
    }
    {
        let code_to_be_parsed = r#"
            BasicEvt::A =>{
                if a{
                    transition!(S2)
                }
                else if !a{
                   {
                        call_fn();
                    }
                    return handled!()
                }
            } 
            "#;

        let expected_parsing_result = (
            Next::Condition(Condition {
                branches: vec![
                    ConditionalBranch {
                        guard: string("a"),
                        action: None,
                        next: Next::Target(TransitionTarget { state_name: string("S2") }),
                    },
                    ConditionalBranch { guard: string("!a"), action: Some(string("call_fn()")), next: Next::Handled() },
                ],
            }),
            None,
        );

        test_parse_match_arm_body_cmp(code_to_be_parsed, expected_parsing_result);
    }
}

const MACHINE: &str = r#"
use hsm::{State, TopState};

#[derive(Debug)]
enum BasicEvt { A, B }

struct Basic { a: u8 }

impl TopState for Basic {
    type Evt = BasicEvt;

    fn init(&mut self) -> InitResult<Self> {
        self.a = 0;
        init_transition!(S0)
    }
}

impl State<S0> for Basic {
    fn entry(&mut self) {
        println!("S0-ENTRY");
    }

    fn handle(&mut self, evt: &BasicEvt) -> HandleResult<Self> {
        match evt {
            BasicEvt::A => {
                if self.a == 3 {
                    transition!(S1)
                } else {
                    handled!()
                }
            }
            _ => {
                return handled!()
            }
        }
    }
}

impl State<S1> for Basic {
    fn handle(&mut self, evt: &BasicEvt) -> HandleResult<Self> {
        match evt {
            BasicEvt::B => {
                self.a = 1;
                transition!(S0)
            }
            _ => {
                handled!()
            }
        }
    }
}
"#;

#[test]
fn whole_file_from_source_text() {
    let parser = Parser::new(&string("basic.rs"));
    let ast = parser.parse_source(MACHINE).unwrap();
    let m = parser.try_parse(&lower_file(&ast)).unwrap().unwrap();
    assert_eq!(m.name, "Basic");
    assert_eq!(m.top_state.evt_type_alias, Some(string("BasicEvt")));
    assert_eq!(m.top_state.init, Init { action: Some(string("self.a = 0;")), target: string("S0") });
    assert_eq!(m.states.len(), 2);
    let s0 = &m.states[0];
    assert_eq!(s0.name, "S0");
    assert_eq!(s0.entry, Some(Entry { action: Some(string("println!(\"S0-ENTRY\");")) }));
    assert_eq!(s0.evt_handler.evt_catchers.len(), 1);
    assert_eq!(s0.evt_handler.evt_catchers[0].evt_type_name, "BasicEvt");
    assert_eq!(s0.evt_handler.evt_catchers[0].evt_variant_name, "A");
    assert_eq!(
        s0.evt_handler.evt_catchers[0].next,
        Next::Condition(Condition {
            branches: vec![
                ConditionalBranch {
                    guard: string("self.a == 3"),
                    action: None,
                    next: Next::Target(TransitionTarget { state_name: string("S1") }),
                },
                ConditionalBranch { guard: string("else"), action: None, next: Next::Handled() },
            ],
        })
    );
    let s1 = &m.states[1];
    assert_eq!(s1.name, "S1");
    assert_eq!(s1.evt_handler.evt_catchers[0].action, Some(string("self.a = 1")));
    assert_eq!(
        s1.evt_handler.evt_catchers[0].next,
        Next::Target(TransitionTarget { state_name: string("S0") })
    );
}

#[test]
fn whole_file_errors_carry_source_positions() {
    let parser = Parser::new(&string("bad.rs"));
    let text = "impl TopState for Basic {\n    type Evt = BasicEvt;\n}\n";
    let ast = parser.parse_source(text).unwrap();
    assert_eq!(
        parser.try_parse(&lower_file(&ast)),
        Some(Err(Error::MissingInitDef { line: 1, col: 0 }))
    );
    let text = "impl State<S0> for Basic {\n    fn handle(&mut self, evt: &E) {\n        match evt {\n            ::A => { handled!() }\n        }\n    }\n}\n";
    let ast = parser.parse_source(text).unwrap();
    assert_eq!(
        parser.try_parse(&lower_file(&ast)),
        Some(Err(Error::InvalidEvtMatch { line: 4, col: 12 }))
    );
}
