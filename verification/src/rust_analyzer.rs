//! rust-analyzer-specific request parameters and results, kept separate from the standard LSP
//! types. URIs and paths are held as their text; environment maps as lists of distinct keys.

use vstd::prelude::*;
use crate::json::JsonValue;
use crate::lsp::{LocationLink, Position, TextDocumentIdentifier};

verus! {

/// Parameters of `rust-analyzer/analyzerStatus`.
#[derive(Debug)]
pub struct AnalyzerStatusParams {
    /// Document whose status is requested, if any.
    pub text_document: Option<TextDocumentIdentifier>,
}

/// Parameters of `rust-analyzer/fetchDependencyList`.
#[derive(Debug, Clone, Copy, PartialEq, Eq, Default)]
pub struct FetchDependencyListParams {}

/// One crate of the dependency list.
#[derive(Debug, Clone, PartialEq, Eq)]
pub struct CrateInfoResult {
    /// Crate name, when known.
    pub name: Option<String>,
    /// Crate version, when known.
    pub version: Option<String>,
    /// URI of the crate root.
    pub path: String,
}

/// Result of `rust-analyzer/fetchDependencyList`.
#[derive(Debug, Clone, PartialEq, Eq)]
pub struct FetchDependencyListResult {
    /// The crates of the workspace and its dependencies.
    pub crates: Vec<CrateInfoResult>,
}

/// Parameters of `rust-analyzer/viewSyntaxTree`.
#[derive(Debug)]
pub struct ViewSyntaxTreeParams {
    /// Document whose syntax tree is requested.
    pub text_document: TextDocumentIdentifier,
}

/// Parameters of `rust-analyzer/expandMacro`.
#[derive(Debug)]
pub struct ExpandMacroParams {
    /// Document holding the macro call.
    pub text_document: TextDocumentIdentifier,
    /// Position of the macro call.
    pub position: Position,
}

/// Result of `rust-analyzer/expandMacro`.
#[derive(Debug, Clone, PartialEq, Eq)]
pub struct ExpandedMacro {
    /// Name of the expanded macro.
    pub name: String,
    /// Expanded text.
    pub expansion: String,
}

/// Parameters of `experimental/runnables`.
#[derive(Debug)]
pub struct RunnablesParams {
    /// Document to search for runnables.
    pub text_document: TextDocumentIdentifier,
    /// Position that narrows the search, if any.
    pub position: Option<Position>,
}

/// A runnable target reported by rust-analyzer.
#[derive(Debug)]
pub struct Runnable {
    /// Display label.
    pub label: String,
    /// Source location, if any.
    pub location: Option<LocationLink>,
    /// Kind of runnable.
    pub kind: RunnableKind,
    /// Arguments to run it.
    pub args: RunnableArgs,
}

/// Arguments of a runnable.
#[derive(Debug, Clone, PartialEq, Eq)]
pub enum RunnableArgs {
    /// A cargo invocation.
    Cargo(CargoRunnableArgs),
    /// A shell command.
    Shell(ShellRunnableArgs),
}

/// Kind of runnable.
#[derive(Debug, Clone, Copy, PartialEq, Eq, Structural)]
pub enum RunnableKind {
    /// Run through cargo.
    Cargo,
    /// Run as a shell command.
    Shell,
}

/// Arguments of a cargo runnable.
#[derive(Debug, Clone, PartialEq, Eq)]
pub struct CargoRunnableArgs {
    /// Environment variables, each key once.
    pub environment: Vec<(String, String)>,
    /// Working directory.
    pub cwd: String,
    /// Replacement for the cargo command, if any.
    pub override_cargo: Option<String>,
    /// Workspace root, if any.
    pub workspace_root: Option<String>,
    /// Arguments to cargo.
    pub cargo_args: Vec<String>,
    /// Arguments to the executable.
    pub executable_args: Vec<String>,
}

/// Arguments of a shell runnable.
#[derive(Debug, Clone, PartialEq, Eq)]
pub struct ShellRunnableArgs {
    /// Environment variables, each key once.
    pub environment: Vec<(String, String)>,
    /// Working directory.
    pub cwd: String,
    /// Program to run.
    pub program: String,
    /// Program arguments.
    pub args: Vec<String>,
}

/// A test related to a position.
#[derive(Debug)]
pub struct TestInfo {
    /// How to run the test.
    pub runnable: Runnable,
}

/// Parameters of rust-analyzer's extended `workspace/symbol`.
#[derive(Debug)]
pub struct RustAnalyzerWorkspaceSymbolParams {
    /// Token for partial results, if any.
    pub partial_result_token: Option<JsonValue>,
    /// Token for work-done progress, if any.
    pub work_done_token: Option<JsonValue>,
    /// Search string.
    pub query: String,
    /// Which crates to search.
    pub search_scope: Option<WorkspaceSymbolSearchScope>,
    /// Which symbols to search.
    pub search_kind: Option<WorkspaceSymbolSearchKind>,
}

/// Which crates a symbol search covers.
#[derive(Debug, Clone, Copy, PartialEq, Eq, Structural)]
pub enum WorkspaceSymbolSearchScope {
    /// The workspace only.
    Workspace,
    /// The workspace and its dependencies.
    WorkspaceAndDependencies,
}

/// Which symbols a symbol search covers.
#[derive(Debug, Clone, Copy, PartialEq, Eq, Structural)]
pub enum WorkspaceSymbolSearchKind {
    /// Types only.
    OnlyTypes,
    /// All symbols.
    AllSymbols,
}

/// Parameters of `experimental/openCargoToml`.
#[derive(Debug)]
pub struct OpenCargoTomlParams {
    /// Document whose Cargo.toml is requested.
    pub text_document: TextDocumentIdentifier,
}

/// Parameters of `rust-analyzer/getFailedObligations`.
#[derive(Debug)]
pub struct GetFailedObligationsParams {
    /// Document holding the expression.
    pub text_document: TextDocumentIdentifier,
    /// Position of the expression.
    pub position: Position,
}

} // verus!
