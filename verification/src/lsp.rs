//! Typed LSP request and response structures exposed by the public client API.

use vstd::prelude::*;

verus! {

/// A zero-based LSP text document position.
#[derive(Debug, Clone, Copy, PartialEq, Eq, Structural)]
pub struct Position {
    /// Zero-based line offset.
    pub line: u32,
    /// Zero-based UTF code unit offset within the line.
    pub character: u32,
}

/// An LSP text range.
#[derive(Debug, Clone, Copy, PartialEq, Eq, Structural)]
pub struct Range {
    /// Range start position.
    pub start: Position,
    /// Range end position.
    pub end: Position,
}

/// A location inside a text document.
#[derive(Debug)]
pub struct Location {
    /// Document URI.
    pub uri: String,
    /// Range inside the document.
    pub range: Range,
}

/// A location link returned by navigation requests.
#[derive(Debug)]
pub struct LocationLink {
    /// Origin selection range, when provided by the server.
    pub origin_selection_range: Option<Range>,
    /// Target document URI.
    pub target_uri: String,
    /// Full target range.
    pub target_range: Range,
    /// Target selection range.
    pub target_selection_range: Range,
}

/// A navigation result item normalized from definition responses.
#[derive(Debug)]
pub enum DefinitionTarget {
    /// A plain document location.
    Location(Location),
    /// A richer location link.
    LocationLink(LocationLink),
}

/// A string with an associated language identifier.
#[derive(Debug)]
pub struct LanguageString {
    /// Language identifier such as `rust`.
    pub language: String,
    /// Marked string value.
    pub value: String,
}

/// Rich markup content.
#[derive(Debug)]
pub struct MarkupContent {
    /// Markup kind.
    pub kind: MarkupKind,
    /// Markup value.
    pub value: String,
}

/// Supported markup kinds for hover and documentation payloads.
#[derive(Debug, Clone, Copy, PartialEq, Eq, Structural)]
pub enum MarkupKind {
    /// Plain text markup.
    PlainText,
    /// Markdown markup.
    Markdown,
}

/// Hover or documentation contents.
#[derive(Debug)]
pub enum HoverContents {
    /// A single plain string.
    Scalar(String),
    /// A language-tagged string.
    LanguageString(LanguageString),
    /// Multiple marked strings.
    Array(Vec<MarkedString>),
    /// Structured markup content.
    Markup(MarkupContent),
}

/// A single marked string value.
#[derive(Debug)]
pub enum MarkedString {
    /// Plain text string.
    Scalar(String),
    /// A language-tagged string.
    LanguageString(LanguageString),
}

/// Hover result for a document position.
#[derive(Debug)]
pub struct Hover {
    /// Hover contents.
    pub contents: HoverContents,
    /// Range associated with the hover, when present.
    pub range: Option<Range>,
}

/// Additional completion request context.
#[derive(Debug)]
pub struct CompletionContext {
    /// Why completion was triggered.
    pub trigger_kind: u8,
    /// Trigger character when the request was character-triggered.
    pub trigger_character: Option<String>,
}

/// Completion item documentation payload.
#[derive(Debug)]
pub enum Documentation {
    /// Plain string documentation.
    Scalar(String),
    /// Structured markup documentation.
    Markup(MarkupContent),
}

/// A completion item returned by the server.
#[derive(Debug)]
pub struct CompletionItem {
    /// Display label.
    pub label: String,
    /// Optional kind numeric discriminator.
    pub kind: Option<u8>,
    /// Optional detail string.
    pub detail: Option<String>,
    /// Optional documentation.
    pub documentation: Option<Documentation>,
    /// Optional text inserted on completion acceptance.
    pub insert_text: Option<String>,
}

/// Normalized completion result.
#[derive(Debug)]
pub struct CompletionItems {
    /// Whether the list is incomplete and may need retriggering.
    pub is_incomplete: bool,
    /// Completion items.
    pub items: Vec<CompletionItem>,
}

/// A document text edit.
#[derive(Debug)]
pub struct TextEdit {
    /// Edited range.
    pub range: Range,
    /// Replacement text.
    pub new_text: String,
}

/// A text edit that carries a change annotation.
#[derive(Debug)]
pub struct AnnotatedTextEdit {
    /// The edit itself.
    pub text_edit: TextEdit,
    /// Identifier of the change annotation.
    pub annotation_id: String,
}

/// Either a plain or an annotated text edit.
#[derive(Debug)]
pub enum TextEditKind {
    /// A plain edit.
    Plain(TextEdit),
    /// An annotated edit.
    Annotated(AnnotatedTextEdit),
}

/// A text document identifier with an optional version.
#[derive(Debug)]
pub struct OptionalVersionedTextDocumentIdentifier {
    /// Document URI.
    pub uri: String,
    /// Version, when known.
    pub version: Option<i32>,
}

/// Edits to one text document.
#[derive(Debug)]
pub struct TextDocumentEdit {
    /// The document.
    pub text_document: OptionalVersionedTextDocumentIdentifier,
    /// Its edits.
    pub edits: Vec<TextEditKind>,
}

/// A file creation.
#[derive(Debug)]
pub struct CreateFile {
    /// URI of the new file.
    pub uri: String,
}

/// A file rename.
#[derive(Debug)]
pub struct RenameFile {
    /// Existing URI.
    pub old_uri: String,
    /// New URI.
    pub new_uri: String,
}

/// A file deletion.
#[derive(Debug)]
pub struct DeleteFile {
    /// URI of the deleted file.
    pub uri: String,
}

/// A file-level operation of a workspace edit.
#[derive(Debug)]
pub enum ResourceOp {
    /// Create a file.
    Create(CreateFile),
    /// Rename a file.
    Rename(RenameFile),
    /// Delete a file.
    Delete(DeleteFile),
}

/// One entry of an operations list.
#[derive(Debug)]
pub enum DocumentChangeOperation {
    /// A file operation.
    Op(ResourceOp),
    /// Text edits.
    Edit(TextDocumentEdit),
}

/// The document-change part of a workspace edit.
#[derive(Debug)]
pub enum DocumentChanges {
    /// Text edits only.
    Edits(Vec<TextDocumentEdit>),
    /// Text edits and file operations, in order.
    Operations(Vec<DocumentChangeOperation>),
}

/// Workspace edit returned by rename-like requests.
#[derive(Debug)]
pub struct WorkspaceEdit {
    /// URI-keyed edits grouped by document; each URI appears once.
    pub changes: Option<Vec<(String, Vec<TextEdit>)>>,
    /// Versioned document changes, preferred over `changes` when present.
    pub document_changes: Option<DocumentChanges>,
}

impl WorkspaceEdit {
    /// The per-URI edits name each URI once, as the keys of a map do.
    pub open spec fn wf(&self) -> bool {
        match self.changes {
            Some(cs) => forall|i: int, j: int| 0 <= i < j < cs@.len() ==> cs@[i].0@ != cs@[j].0@,
            None => true,
        }
    }
}

/// Result of `textDocument/prepareRename`.
#[derive(Debug)]
pub enum PrepareRenameResponse {
    /// The server returned only the editable range.
    Range(Range),
    /// The server returned a range and placeholder.
    RangeWithPlaceholder {
        /// Editable range.
        range: Range,
        /// Existing symbol text.
        placeholder: String,
    },
    /// The server delegated to default client behavior.
    DefaultBehavior {
        /// Default behavior flag.
        default_behavior: bool,
    },
}

/// A flat symbol information entry.
#[derive(Debug)]
pub struct SymbolInformation {
    /// Symbol name.
    pub name: String,
    /// Symbol kind numeric discriminator.
    pub kind: i32,
    /// Symbol location.
    pub location: Location,
    /// Optional container name.
    pub container_name: Option<String>,
}

/// A hierarchical document symbol.
#[derive(Debug)]
pub struct DocumentSymbol {
    /// Symbol name.
    pub name: String,
    /// Optional symbol detail.
    pub detail: Option<String>,
    /// Symbol kind numeric discriminator.
    pub kind: i32,
    /// Full symbol range.
    pub range: Range,
    /// Preferred selection range.
    pub selection_range: Range,
    /// Child document symbols.
    pub children: Vec<DocumentSymbol>,
}

/// A normalized document symbol result entry.
#[derive(Debug)]
pub enum DocumentSymbolItem {
    /// Hierarchical document symbol.
    DocumentSymbol(DocumentSymbol),
    /// Flat symbol information.
    SymbolInformation(SymbolInformation),
}

/// A workspace symbol entry.
#[derive(Debug)]
pub struct WorkspaceSymbol {
    /// Symbol name.
    pub name: String,
    /// Symbol kind numeric discriminator.
    pub kind: i32,
    /// Symbol location.
    pub location: WorkspaceSymbolLocation,
    /// Optional container name.
    pub container_name: Option<String>,
}

/// Workspace symbol location variants.
#[derive(Debug)]
pub enum WorkspaceSymbolLocation {
    /// Resolved concrete location.
    Location(Location),
    /// Unresolved URI without a range.
    Uri {
        /// Document URI.
        uri: String,
    },
}

/// A normalized workspace symbol result entry.
#[derive(Debug)]
pub enum WorkspaceSymbolItem {
    /// Rich workspace symbol result.
    WorkspaceSymbol(WorkspaceSymbol),
    /// Legacy symbol information result.
    SymbolInformation(SymbolInformation),
}

/// A workspace symbol response: flat symbol information or richer workspace symbols.
#[derive(Debug)]
pub enum WorkspaceSymbolResponse {
    /// Legacy flat symbol information.
    Flat(Vec<SymbolInformation>),
    /// Workspace symbols whose location may be a bare URI.
    Nested(Vec<WorkspaceSymbol>),
}

/// A text document named by its URI.
#[derive(Debug)]
pub struct TextDocumentIdentifier {
    /// Document URI.
    pub uri: String,
}

/// A text document named by its URI, at a version.
#[derive(Debug)]
pub struct VersionedTextDocumentIdentifier {
    /// Document URI.
    pub uri: String,
    /// Document version.
    pub version: i32,
}

/// A text document's full state as sent when it is opened.
#[derive(Debug)]
pub struct TextDocumentItem {
    /// Document URI.
    pub uri: String,
    /// Language identifier.
    pub language_id: String,
    /// Document version.
    pub version: i32,
    /// Document text.
    pub text: String,
}

/// A position inside a document.
#[derive(Debug)]
pub struct TextDocumentPositionParams {
    /// The document.
    pub text_document: TextDocumentIdentifier,
    /// The position.
    pub position: Position,
}

/// A completion response as servers send it: a bare list or a list with a completeness flag.
#[derive(Debug)]
pub enum CompletionResponse {
    /// A bare list, complete.
    Array(Vec<CompletionItem>),
    /// A list with a completeness flag.
    List(CompletionList),
}

/// A completion list.
#[derive(Debug)]
pub struct CompletionList {
    /// Whether the list is incomplete.
    pub is_incomplete: bool,
    /// The items.
    pub items: Vec<CompletionItem>,
}

impl CompletionResponse {
    /// Normalizes the response: a bare list is complete.
    pub fn into_completion_items(self) -> (r: CompletionItems)
        ensures
            match self {
                CompletionResponse::Array(items) => !r.is_incomplete && r.items == items,
                CompletionResponse::List(list) => r.is_incomplete == list.is_incomplete && r.items == list.items,
            },
    {
        match self {
            CompletionResponse::Array(items) => CompletionItems { is_incomplete: false, items },
            CompletionResponse::List(list) => CompletionItems { is_incomplete: list.is_incomplete, items: list.items },
        }
    }
}

/// A definition response as servers send it.
#[derive(Debug)]
pub enum DefinitionResponse {
    /// One location.
    Scalar(Location),
    /// Several locations.
    Locations(Vec<Location>),
    /// Location links.
    LocationLinks(Vec<LocationLink>),
}

impl DefinitionResponse {
    /// Flattens the response into a list of targets, in order.
    pub fn into_targets(self) -> (r: Vec<DefinitionTarget>)
        ensures
            match self {
                DefinitionResponse::Scalar(l) => r@ == seq![DefinitionTarget::Location(l)],
                DefinitionResponse::Locations(ls) => r@.len() == ls@.len() && forall|i: int|
                    0 <= i < ls@.len() ==> r@[i] == DefinitionTarget::Location(#[trigger] ls@[i]),
                DefinitionResponse::LocationLinks(ls) => r@.len() == ls@.len() && forall|i: int|
                    0 <= i < ls@.len() ==> r@[i] == DefinitionTarget::LocationLink(#[trigger] ls@[i]),
            },
    {
        match self {
            DefinitionResponse::Scalar(location) => {
                let mut out: Vec<DefinitionTarget> = Vec::new();
                out.push(DefinitionTarget::Location(location));
                out
            },
            DefinitionResponse::Locations(locations) => {
                let ghost src = locations@;
                let mut rest = locations;
                let mut back: Vec<DefinitionTarget> = Vec::new();
                while rest.len() > 0
                    invariant
                        rest@.len() + back@.len() == src.len(),
                        forall|i: int| 0 <= i < rest@.len() ==> rest@[i] == src[i],
                        forall|i: int| 0 <= i < back@.len() ==> back@[i] == DefinitionTarget::Location(
                            src[src.len() - 1 - i],
                        ),
                    decreases rest.len(),
                {
                    let l = rest.pop().unwrap();
                    back.push(DefinitionTarget::Location(l));
                }
                let mut out: Vec<DefinitionTarget> = Vec::new();
                while back.len() > 0
                    invariant
                        back@.len() + out@.len() == src.len(),
                        forall|i: int| 0 <= i < back@.len() ==> back@[i] == DefinitionTarget::Location(
                            src[src.len() - 1 - i],
                        ),
                        forall|i: int| 0 <= i < out@.len() ==> out@[i] == DefinitionTarget::Location(src[i]),
                    decreases back.len(),
                {
                    let t = back.pop().unwrap();
                    out.push(t);
                }
                out
            },
            DefinitionResponse::LocationLinks(links) => {
                let ghost src = links@;
                let mut rest = links;
                let mut back: Vec<DefinitionTarget> = Vec::new();
                while rest.len() > 0
                    invariant
                        rest@.len() + back@.len() == src.len(),
                        forall|i: int| 0 <= i < rest@.len() ==> rest@[i] == src[i],
                        forall|i: int| 0 <= i < back@.len() ==> back@[i] == DefinitionTarget::LocationLink(
                            src[src.len() - 1 - i],
                        ),
                    decreases rest.len(),
                {
                    let l = rest.pop().unwrap();
                    back.push(DefinitionTarget::LocationLink(l));
                }
                let mut out: Vec<DefinitionTarget> = Vec::new();
                while back.len() > 0
                    invariant
                        back@.len() + out@.len() == src.len(),
                        forall|i: int| 0 <= i < back@.len() ==> back@[i] == DefinitionTarget::LocationLink(
                            src[src.len() - 1 - i],
                        ),
                        forall|i: int| 0 <= i < out@.len() ==> out@[i] == DefinitionTarget::LocationLink(src[i]),
                    decreases back.len(),
                {
                    let t = back.pop().unwrap();
                    out.push(t);
                }
                out
            },
        }
    }
}

} // verus!
