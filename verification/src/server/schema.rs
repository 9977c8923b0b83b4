//! MCP-facing input and output schemas shared across rust-analyzer tools.
//!
//! The shaping rules in this module are intentional:
//! - inputs use workspace/document/path primitives instead of raw JSON-RPC envelopes
//! - outputs use normalized summaries instead of raw LSP union payloads
//! - cancellation and progress surface through a shared execution summary
//! - mutating tools expose workspace-edit effects separately from the logical payload
//!
//! Paths are held as their text.

use vstd::prelude::*;
use rmcp::model::ToolAnnotations;

verus! {

/// The annotation type of MCP tools.
#[verifier::external_type_specification]
#[verifier::external_body]
pub struct ExToolAnnotations(ToolAnnotations);

/// What `ToolAnnotations::from_raw` builds from a title and the four hints.
pub uninterp spec fn spec_tool_annotations(
    title: Option<Seq<char>>,
    read_only: Option<bool>,
    destructive: Option<bool>,
    idempotent: Option<bool>,
    open_world: Option<bool>,
) -> ToolAnnotations;

/// Builds tool annotations with rmcp's `ToolAnnotations::from_raw`, which stores each argument
/// in the field of the same name. The fields are not visible here, so the contract names the
/// result as a function of the arguments.
#[verifier::external_body]
fn tool_annotations_from_raw(
    title: Option<String>,
    read_only: Option<bool>,
    destructive: Option<bool>,
    idempotent: Option<bool>,
    open_world: Option<bool>,
) -> (r: ToolAnnotations)
    ensures
        r == spec_tool_annotations(
            match title {
                Some(t) => Some(t@),
                None => None,
            },
            read_only,
            destructive,
            idempotent,
            open_world,
        ),
{
    ToolAnnotations::from_raw(title, read_only, destructive, idempotent, open_world)
}

/// Common behavior categories used when annotating MCP tools.
#[derive(Debug, Clone, Copy, PartialEq, Eq, Structural)]
pub enum ToolSemantics {
    /// The tool observes server state without mutating files or workspace state.
    ReadOnly,
    /// The tool mutates state or proposes edits.
    Mutating {
        /// Whether the mutation may remove or overwrite user state.
        destructive: bool,
        /// Whether repeating the same call leaves state unchanged after the first application.
        idempotent: bool,
    },
}

/// The four behavior hints of a tool: read-only, destructive, idempotent, open-world.
#[derive(Debug, Clone, Copy, PartialEq, Eq, Structural)]
pub struct ToolHints {
    /// The tool does not modify its environment.
    pub read_only: bool,
    /// The tool may perform destructive updates.
    pub destructive: bool,
    /// Repeating a call has no additional effect.
    pub idempotent: bool,
    /// The tool may interact with an open world of external entities.
    pub open_world: bool,
}

/// The hints that each semantics declares.
pub open spec fn spec_hints(s: ToolSemantics) -> ToolHints {
    match s {
        ToolSemantics::ReadOnly => ToolHints {
            read_only: true,
            destructive: false,
            idempotent: true,
            open_world: false,
        },
        ToolSemantics::Mutating { destructive, idempotent } => ToolHints {
            read_only: false,
            destructive,
            idempotent,
            open_world: false,
        },
    }
}

impl ToolSemantics {
    /// The behavior hints that match the declared semantics: a read-only tool is
    /// non-destructive and idempotent; no tool reaches an open world.
    pub fn hints(self) -> (r: ToolHints)
        ensures
            r == spec_hints(self),
    {
        match self {
            ToolSemantics::ReadOnly => ToolHints {
                read_only: true,
                destructive: false,
                idempotent: true,
                open_world: false,
            },
            ToolSemantics::Mutating { destructive, idempotent } => ToolHints {
                read_only: false,
                destructive,
                idempotent,
                open_world: false,
            },
        }
    }

    /// Builds rmcp tool annotations that match the declared semantics.
    pub fn annotations(self, title: String) -> (r: ToolAnnotations)
        ensures
            r == spec_tool_annotations(
                Some(title@),
                Some(spec_hints(self).read_only),
                Some(spec_hints(self).destructive),
                Some(spec_hints(self).idempotent),
                Some(spec_hints(self).open_world),
            ),
    {
        let h = self.hints();
        tool_annotations_from_raw(
            Some(title),
            Some(h.read_only),
            Some(h.destructive),
            Some(h.idempotent),
            Some(h.open_world),
        )
    }
}

/// Identifies a registered rust-analyzer workspace.
#[derive(Debug, Clone, PartialEq, Eq)]
pub struct WorkspaceRootInput {
    /// Absolute path to the workspace root managed by the server.
    pub workspace_root: String,
}

/// Identifies a specific document inside a registered workspace.
#[derive(Debug, Clone, PartialEq, Eq)]
pub struct DocumentInput {
    /// Absolute path to the workspace root managed by the server.
    pub workspace_root: String,
    /// Absolute path to the target document.
    pub document_path: String,
}

/// Zero-based text position.
#[derive(Debug, Clone, Copy, PartialEq, Eq, Structural)]
pub struct TextPosition {
    /// Zero-based line number.
    pub line: u32,
    /// Zero-based UTF-8 character offset on the line.
    pub character: u32,
}

/// Zero-based text range.
#[derive(Debug, Clone, Copy, PartialEq, Eq, Structural)]
pub struct TextRange {
    /// Inclusive start position.
    pub start: TextPosition,
    /// Exclusive end position.
    pub end: TextPosition,
}

/// Identifies a position within a document.
#[derive(Debug, Clone, PartialEq, Eq)]
pub struct DocumentPositionInput {
    /// Absolute path to the workspace root managed by the server.
    pub workspace_root: String,
    /// Absolute path to the target document.
    pub document_path: String,
    /// Zero-based position within the target document.
    pub position: TextPosition,
}

/// Input shared by query-style workspace tools such as symbol search.
#[derive(Debug, Clone, PartialEq, Eq)]
pub struct WorkspaceQueryInput {
    /// Absolute path to the workspace root managed by the server.
    pub workspace_root: String,
    /// Search string interpreted by the downstream tool.
    pub query: String,
}

/// Representative mutating input for rename-style operations.
#[derive(Debug, Clone, PartialEq, Eq)]
pub struct RenameSymbolInput {
    /// Absolute path to the workspace root managed by the server.
    pub workspace_root: String,
    /// Absolute path to the target document.
    pub document_path: String,
    /// Zero-based position of the symbol being renamed.
    pub position: TextPosition,
    /// Replacement symbol name.
    pub new_name: String,
}

/// Normalized link to a location in source code.
#[derive(Debug, Clone, PartialEq, Eq)]
pub struct DocumentLocation {
    /// Absolute path to the target document.
    pub document_path: String,
    /// Range inside the target document.
    pub range: TextRange,
}

/// Normalized hover content kinds.
#[derive(Debug, Clone, PartialEq, Eq)]
pub enum HoverContent {
    /// Markdown-formatted hover body.
    Markdown(String),
    /// Plain text hover body.
    PlainText(String),
}

/// Hover content in the mathematical model.
pub enum HoverText {
    /// Markdown text.
    Markdown(Seq<char>),
    /// Plain text.
    PlainText(Seq<char>),
}

impl View for HoverContent {
    type V = HoverText;

    open spec fn view(&self) -> HoverText {
        match self {
            HoverContent::Markdown(s) => HoverText::Markdown(s@),
            HoverContent::PlainText(s) => HoverText::PlainText(s@),
        }
    }
}

/// Representative read-only hover output.
#[derive(Debug, Clone, PartialEq, Eq)]
pub struct HoverSummary {
    /// Human-meaningful hover contents.
    pub contents: HoverContent,
    /// Optional source range associated with the hover.
    pub range: Option<TextRange>,
}

/// Representative workspace symbol output.
#[derive(Debug, Clone, PartialEq, Eq)]
pub struct SymbolSummary {
    /// Symbol name as displayed to callers.
    pub name: String,
    /// Human-readable kind label.
    pub kind: String,
    /// Optional container name such as a module or type.
    pub container_name: Option<String>,
    /// Source location for the symbol.
    pub location: DocumentLocation,
}

/// Representative analyzer-status output.
#[derive(Debug, Clone, PartialEq, Eq)]
pub struct AnalyzerStatusSummary {
    /// Human-readable analyzer status string.
    pub status: String,
}

/// Representative syntax-tree inspection output.
#[derive(Debug, Clone, PartialEq, Eq)]
pub struct SyntaxTreeSummary {
    /// Rendered syntax tree for the requested document.
    pub tree: String,
}

/// Most recent progress phase for a tool call.
#[derive(Debug, Clone, Copy, PartialEq, Eq, Structural)]
pub enum ToolProgressPhase {
    /// Work has been accepted but not started.
    Queued,
    /// Work is currently running.
    Running,
    /// Work completed normally.
    Completed,
}

/// Final cancellation state returned by a tool, when cancellation surfaced to the caller.
#[derive(Debug, Clone, PartialEq, Eq)]
pub struct CancellationSummary {
    /// Whether cancellation was requested while the tool was running.
    pub requested: bool,
    /// Optional reason or source for the cancellation.
    pub reason: Option<String>,
}

/// Shared execution metadata carried by both read-only and mutating tool results.
#[derive(Debug, Clone, PartialEq, Eq)]
pub struct ToolExecutionSummary {
    /// Most recent known progress phase for the tool call.
    pub progress_phase: ToolProgressPhase,
    /// Optional latest progress message.
    pub progress_message: Option<String>,
    /// Cancellation information when relevant to the call outcome.
    pub cancellation: Option<CancellationSummary>,
}

impl Default for ToolExecutionSummary {
    /// A completed call with no progress message and no cancellation.
    fn default() -> (r: Self)
        ensures
            r.progress_phase == ToolProgressPhase::Completed,
            r.progress_message is None,
            r.cancellation is None,
    {
        ToolExecutionSummary {
            progress_phase: ToolProgressPhase::Completed,
            progress_message: None,
            cancellation: None,
        }
    }
}

/// Summary of one text edit without leaking the full LSP workspace-edit envelope.
#[derive(Debug, Clone, PartialEq, Eq)]
pub struct TextEditSummary {
    /// Affected range in the target document.
    pub range: TextRange,
    /// Replacement text.
    pub new_text: String,
}

/// Normalized summary of workspace edit effects produced by mutating tools.
#[derive(Debug, Clone, PartialEq, Eq)]
pub enum WorkspaceChangeSummary {
    /// File text edits for an existing document.
    TextEdits {
        /// Absolute path to the edited document.
        document_path: String,
        /// Text edits that should be applied to the document.
        edits: Vec<TextEditSummary>,
    },
    /// File creation requested by the tool.
    CreateFile {
        /// Absolute path to the new file.
        path: String,
    },
    /// File rename requested by the tool.
    RenameFile {
        /// Existing file path.
        old_path: String,
        /// Replacement file path.
        new_path: String,
    },
    /// File deletion requested by the tool.
    DeleteFile {
        /// Absolute path to the deleted file.
        path: String,
    },
}

/// Shared workspace-edit summary used by mutating tools.
#[derive(Debug, Clone, PartialEq, Eq)]
pub struct WorkspaceEditSummary {
    /// Set of normalized file changes represented by the tool response.
    pub changes: Vec<WorkspaceChangeSummary>,
}

impl Default for WorkspaceEditSummary {
    /// A summary with no changes.
    fn default() -> (r: Self)
        ensures
            r.changes@.len() == 0,
    {
        WorkspaceEditSummary { changes: Vec::new() }
    }
}

/// Shared wrapper for read-only tool responses.
#[derive(Debug, Clone, PartialEq, Eq)]
pub struct ReadOnlyToolResult<T> {
    /// Normalized tool payload.
    pub data: T,
    /// Shared execution metadata such as progress and cancellation.
    pub execution: ToolExecutionSummary,
}

/// Shared wrapper for mutating tool responses.
#[derive(Debug, Clone, PartialEq, Eq)]
pub struct MutatingToolResult<T> {
    /// Normalized tool payload.
    pub data: T,
    /// Shared execution metadata such as progress and cancellation.
    pub execution: ToolExecutionSummary,
    /// Normalized workspace edits associated with the mutation, when present.
    pub workspace_edit: Option<WorkspaceEditSummary>,
}

} // verus!
