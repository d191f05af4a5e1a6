//! The errors that parsing a state machine can report.
use vstd::prelude::*;

verus! {

/// Why a source file does not describe a state machine that the parser accepts.
///
/// Positions are given as `line` (from 1) and `col` (from 0) of the node at fault.
#[derive(Debug, PartialEq, Eq)]
pub enum Error {
    /// The file is not valid Rust code.
    InvalidRustCode { filepath: String },
    /// The file cannot be read.
    InvalidSourceFile { filepath: String },
    /// Parsing the top state failed; `source` describes the cause.
    InvalidTopStateParsing { top_state_name: String, source: String },
    /// Parsing a state failed; `source` describes the cause.
    InvalidStateParsing { state_name: String, source: String },
    /// The tag in `State<Tag>` is not a type path.
    InvalidStateTag { line: usize, col: usize },
    /// The type a state trait is implemented for is not a type path.
    InvalidStateMachineName { line: usize, col: usize },
    /// State traits are implemented for two different types in one file.
    ConcurrentStateMachineImpl { expected_state_machine_name: String, found_state_machine_name: String },
    /// The `TopState` implementation defines no `Evt` type.
    MissingEvtTypeDef { line: usize, col: usize },
    /// The `TopState` implementation defines no `init` function with an initial transition.
    MissingInitDef { line: usize, col: usize },
    /// An associated type of the `TopState` implementation is not `type Evt = Path;`.
    InvalidEvtTypeDef { line: usize, col: usize },
    /// An `init` function makes no call of `init_transition!`.
    MissingInitTranCall { line: usize, col: usize },
    /// A `State` implementation defines no `handle` function.
    MissingEvtHandleFunction { line: usize, col: usize },
    /// A `State` implementation has no `handle` function that matches on the event.
    MissingEvtHandler { line: usize, col: usize },
    /// A match arm of `handle` is not of the form `EvtType::Variant`.
    InvalidEvtMatch { line: usize, col: usize },
}

/// An error with its strings as sequences of characters.
pub enum ErrorView {
    InvalidRustCode { filepath: Seq<char> },
    InvalidSourceFile { filepath: Seq<char> },
    InvalidTopStateParsing { top_state_name: Seq<char>, source: Seq<char> },
    InvalidStateParsing { state_name: Seq<char>, source: Seq<char> },
    InvalidStateTag { line: usize, col: usize },
    InvalidStateMachineName { line: usize, col: usize },
    ConcurrentStateMachineImpl { expected_state_machine_name: Seq<char>, found_state_machine_name: Seq<char> },
    MissingEvtTypeDef { line: usize, col: usize },
    MissingInitDef { line: usize, col: usize },
    InvalidEvtTypeDef { line: usize, col: usize },
    MissingInitTranCall { line: usize, col: usize },
    MissingEvtHandleFunction { line: usize, col: usize },
    MissingEvtHandler { line: usize, col: usize },
    InvalidEvtMatch { line: usize, col: usize },
}

impl View for Error {
    type V = ErrorView;

    open spec fn view(&self) -> ErrorView {
        match *self {
            Error::InvalidRustCode { filepath } => ErrorView::InvalidRustCode { filepath: filepath@ },
            Error::InvalidSourceFile { filepath } => ErrorView::InvalidSourceFile { filepath: filepath@ },
            Error::InvalidTopStateParsing { top_state_name, source } => ErrorView::InvalidTopStateParsing {
                top_state_name: top_state_name@,
                source: source@,
            },
            Error::InvalidStateParsing { state_name, source } => ErrorView::InvalidStateParsing {
                state_name: state_name@,
                source: source@,
            },
            Error::InvalidStateTag { line, col } => ErrorView::InvalidStateTag { line, col },
            Error::InvalidStateMachineName { line, col } => ErrorView::InvalidStateMachineName { line, col },
            Error::ConcurrentStateMachineImpl {
                expected_state_machine_name,
                found_state_machine_name,
            } => ErrorView::ConcurrentStateMachineImpl {
                expected_state_machine_name: expected_state_machine_name@,
                found_state_machine_name: found_state_machine_name@,
            },
            Error::MissingEvtTypeDef { line, col } => ErrorView::MissingEvtTypeDef { line, col },
            Error::MissingInitDef { line, col } => ErrorView::MissingInitDef { line, col },
            Error::InvalidEvtTypeDef { line, col } => ErrorView::InvalidEvtTypeDef { line, col },
            Error::MissingInitTranCall { line, col } => ErrorView::MissingInitTranCall { line, col },
            Error::MissingEvtHandleFunction { line, col } => ErrorView::MissingEvtHandleFunction { line, col },
            Error::MissingEvtHandler { line, col } => ErrorView::MissingEvtHandler { line, col },
            Error::InvalidEvtMatch { line, col } => ErrorView::InvalidEvtMatch { line, col },
        }
    }
}

} // verus!
