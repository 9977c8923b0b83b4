//! Normalization of analyzer results into the MCP-facing summaries.

use vstd::prelude::*;
use crate::lsp::{
    DefinitionResponse, DocumentChangeOperation, DocumentChanges, Hover, HoverContents,
    LanguageString, Location, LocationLink, MarkedString, MarkupKind, Position, Range,
    ResourceOp, SymbolInformation, TextDocumentEdit, TextEdit, TextEditKind, WorkspaceEdit,
    WorkspaceSymbol, WorkspaceSymbolLocation, WorkspaceSymbolResponse,
};
use crate::path::{spec_uri_to_path, uri_to_path};
use crate::server::error::opt_view;
use crate::server::schema::{
    DocumentLocation, HoverContent, HoverSummary, HoverText, SymbolSummary, TextEditSummary,
    TextPosition, TextRange, WorkspaceChangeSummary, WorkspaceEditSummary,
};
use crate::text::{push_signed_decimal, push_str_chars, signed_decimal_text, string_from_chars};

verus! {

/// The LSP position of a tool position.
pub fn to_lsp_position(position: TextPosition) -> (r: Position)
    ensures
        r.line == position.line,
        r.character == position.character,
{
    Position { line: position.line, character: position.character }
}

/// The tool range of an LSP range.
pub open spec fn spec_text_range(range: Range) -> TextRange {
    TextRange {
        start: TextPosition { line: range.start.line, character: range.start.character },
        end: TextPosition { line: range.end.line, character: range.end.character },
    }
}

/// Converts an LSP range into a tool range.
pub fn normalize_range(range: Range) -> (r: TextRange)
    ensures
        r == spec_text_range(range),
{
    TextRange {
        start: TextPosition { line: range.start.line, character: range.start.character },
        end: TextPosition { line: range.end.line, character: range.end.character },
    }
}

/// Whether `out` is the location at the path that `uri` names, over `range`.
pub open spec fn location_normalized(out: DocumentLocation, uri: Seq<char>, range: Range) -> bool {
    &&& out.document_path@ == spec_uri_to_path(uri)
    &&& out.range == spec_text_range(range)
}

pub(crate) fn location_at(uri: &str, range: Range) -> (r: DocumentLocation)
    ensures
        location_normalized(r, uri@, range),
{
    DocumentLocation { document_path: uri_to_path(uri), range: normalize_range(range) }
}

/// Converts an LSP location into a document location.
pub fn normalize_location(location: Location) -> (r: DocumentLocation)
    ensures
        location_normalized(r, location.uri@, location.range),
{
    location_at(location.uri.as_str(), location.range)
}

/// A text edit as the summaries hold it: range and replacement text.
pub open spec fn text_edit_view(e: TextEdit) -> (TextRange, Seq<char>) {
    (spec_text_range(e.range), e.new_text@)
}

/// The view of a text-edit summary.
pub open spec fn edit_summary_view(e: TextEditSummary) -> (TextRange, Seq<char>) {
    (e.range, e.new_text@)
}

pub(crate) fn summarize_text_edit(edit: &TextEdit) -> (r: TextEditSummary)
    ensures
        edit_summary_view(r) == text_edit_view(*edit),
{
    TextEditSummary { range: normalize_range(edit.range), new_text: edit.new_text.clone() }
}

/// Converts an LSP text edit into a summary.
pub fn normalize_text_edit(edit: TextEdit) -> (r: TextEditSummary)
    ensures
        edit_summary_view(r) == text_edit_view(edit),
{
    TextEditSummary { range: normalize_range(edit.range), new_text: edit.new_text }
}

/// A language-tagged string as a fenced code block.
pub open spec fn fenced(l: LanguageString) -> Seq<char> {
    "```"@ + l.language@ + "\n"@ + l.value@ + "\n```"@
}

/// The markdown text of a marked string.
pub open spec fn marked_text(m: MarkedString) -> Seq<char> {
    match m {
        MarkedString::Scalar(s) => s@,
        MarkedString::LanguageString(l) => fenced(l),
    }
}

/// Paragraphs joined by blank lines.
pub open spec fn join_paragraphs(parts: Seq<Seq<char>>) -> Seq<char>
    decreases parts.len(),
{
    if parts.len() == 0 {
        Seq::empty()
    } else if parts.len() == 1 {
        parts[0]
    } else {
        join_paragraphs(parts.drop_last()) + "\n\n"@ + parts.last()
    }
}

/// The hover text of hover contents: markup keeps its kind, everything else is markdown.
pub open spec fn spec_hover_text(c: HoverContents) -> HoverText {
    match c {
        HoverContents::Scalar(s) => HoverText::Markdown(s@),
        HoverContents::LanguageString(l) => HoverText::Markdown(fenced(l)),
        HoverContents::Array(items) => HoverText::Markdown(
            join_paragraphs(items@.map_values(|m: MarkedString| marked_text(m))),
        ),
        HoverContents::Markup(m) => if m.kind == MarkupKind::PlainText {
            HoverText::PlainText(m.value@)
        } else {
            HoverText::Markdown(m.value@)
        },
    }
}

fn push_fenced(out: &mut Vec<char>, l: &LanguageString)
    ensures
        final(out)@ == old(out)@ + fenced(*l),
{
    push_str_chars(out, "```");
    push_str_chars(out, l.language.as_str());
    push_str_chars(out, "\n");
    push_str_chars(out, l.value.as_str());
    push_str_chars(out, "\n```");
    assert(final(out)@ =~= old(out)@ + fenced(*l));
}

fn push_marked(out: &mut Vec<char>, m: &MarkedString)
    ensures
        final(out)@ == old(out)@ + marked_text(*m),
{
    match m {
        MarkedString::Scalar(s) => push_str_chars(out, s.as_str()),
        MarkedString::LanguageString(l) => push_fenced(out, l),
    }
}

/// Renders a marked string as markdown: plain strings as they are, language strings as a
/// fenced code block.
pub fn normalize_marked_string(value: MarkedString) -> (r: String)
    ensures
        r@ == marked_text(value),
{
    let mut out: Vec<char> = Vec::new();
    push_marked(&mut out, &value);
    assert(out@ =~= marked_text(value));
    string_from_chars(&out)
}

fn join_marked(items: &Vec<MarkedString>) -> (r: String)
    ensures
        r@ == join_paragraphs(items@.map_values(|m: MarkedString| marked_text(m))),
{
    let ghost parts = items@.map_values(|m: MarkedString| marked_text(m));
    let mut out: Vec<char> = Vec::new();
    let mut i: usize = 0;
    while i < items.len()
        invariant
            i <= items@.len(),
            parts == items@.map_values(|m: MarkedString| marked_text(m)),
            out@ == join_paragraphs(parts.take(i as int)),
        decreases items@.len() - i,
    {
        proof {
            assert(parts.take(i + 1).drop_last() =~= parts.take(i as int));
            assert(parts.take(i + 1).last() == marked_text(items@[i as int]));
            if i == 0 {
                assert(parts.take(0) =~= Seq::<Seq<char>>::empty());
            }
        }
        if i > 0 {
            push_str_chars(&mut out, "\n\n");
        }
        push_marked(&mut out, &items[i]);
        proof {
            if i == 0 {
                assert(parts.take(1) =~= seq![marked_text(items@[0])]);
                assert(out@ =~= join_paragraphs(parts.take(1)));
            } else {
                assert(out@ =~= join_paragraphs(parts.take(i + 1)));
            }
        }
        i += 1;
    }
    assert(parts.take(items@.len() as int) =~= parts);
    string_from_chars(&out)
}

/// Normalizes hover contents into markdown or plain text.
pub fn normalize_hover_contents(contents: HoverContents) -> (r: HoverContent)
    ensures
        r@ == spec_hover_text(contents),
{
    match contents {
        HoverContents::Scalar(text) => HoverContent::Markdown(text),
        HoverContents::LanguageString(l) => {
            let mut out: Vec<char> = Vec::new();
            push_fenced(&mut out, &l);
            assert(out@ =~= fenced(l));
            HoverContent::Markdown(string_from_chars(&out))
        },
        HoverContents::Array(items) => HoverContent::Markdown(join_marked(&items)),
        HoverContents::Markup(markup) => {
            match markup.kind {
                MarkupKind::PlainText => HoverContent::PlainText(markup.value),
                MarkupKind::Markdown => HoverContent::Markdown(markup.value),
            }
        },
    }
}

/// The tool range of an optional LSP range.
pub open spec fn spec_opt_range(range: Option<Range>) -> Option<TextRange> {
    match range {
        Some(r) => Some(spec_text_range(r)),
        None => None,
    }
}

/// Normalizes a hover result.
pub fn normalize_hover(hover: Hover) -> (r: HoverSummary)
    ensures
        r.contents@ == spec_hover_text(hover.contents),
        r.range == spec_opt_range(hover.range),
{
    let range = match hover.range {
        Some(range) => Some(normalize_range(range)),
        None => None,
    };
    HoverSummary { contents: normalize_hover_contents(hover.contents), range }
}

/// Whether `out` holds, in order, the locations of `ls`.
pub open spec fn locations_normalized(out: Seq<DocumentLocation>, ls: Seq<Location>) -> bool {
    &&& out.len() == ls.len()
    &&& forall|i: int| 0 <= i < ls.len() ==> location_normalized(#[trigger] out[i], ls[i].uri@, ls[i].range)
}

/// Whether `out` holds, in order, the target selections of `ls`.
pub open spec fn links_normalized(out: Seq<DocumentLocation>, ls: Seq<LocationLink>) -> bool {
    &&& out.len() == ls.len()
    &&& forall|i: int|
        0 <= i < ls.len() ==> location_normalized(#[trigger] out[i], ls[i].target_uri@, ls[i].target_selection_range)
}

/// Normalizes each location of a list, in order.
pub fn normalize_locations(locations: &Vec<Location>) -> (r: Vec<DocumentLocation>)
    ensures
        locations_normalized(r@, locations@),
{
    let mut out: Vec<DocumentLocation> = Vec::new();
    let mut i: usize = 0;
    while i < locations.len()
        invariant
            i <= locations@.len(),
            out@.len() == i,
            forall|k: int| 0 <= k < i ==> location_normalized(#[trigger] out@[k], locations@[k].uri@, locations@[k].range),
        decreases locations@.len() - i,
    {
        let l = &locations[i];
        out.push(location_at(l.uri.as_str(), l.range));
        i += 1;
    }
    out
}

fn normalize_links(links: &Vec<LocationLink>) -> (r: Vec<DocumentLocation>)
    ensures
        links_normalized(r@, links@),
{
    let mut out: Vec<DocumentLocation> = Vec::new();
    let mut i: usize = 0;
    while i < links.len()
        invariant
            i <= links@.len(),
            out@.len() == i,
            forall|k: int|
                0 <= k < i ==> location_normalized(#[trigger] out@[k], links@[k].target_uri@, links@[k].target_selection_range),
        decreases links@.len() - i,
    {
        let l = &links[i];
        out.push(location_at(l.target_uri.as_str(), l.target_selection_range));
        i += 1;
    }
    out
}

/// Normalizes a definition response into document locations; a link contributes its target
/// selection range.
pub fn normalize_definitions(definitions: Option<DefinitionResponse>) -> (r: Vec<DocumentLocation>)
    ensures
        definitions_normalized(definitions, r@),
{
    match definitions {
        None => Vec::new(),
        Some(DefinitionResponse::Scalar(location)) => {
            let mut out: Vec<DocumentLocation> = Vec::new();
            let ghost l = location;
            out.push(normalize_location(location));
            assert(seq![l][0] == l);
            out
        },
        Some(DefinitionResponse::Locations(locations)) => normalize_locations(&locations),
        Some(DefinitionResponse::LocationLinks(links)) => normalize_links(&links),
    }
}

/// Whether `r` holds the document locations of a definition response, in order.
pub open spec fn definitions_normalized(definitions: Option<DefinitionResponse>, r: Seq<DocumentLocation>) -> bool {
    match definitions {
        None => r.len() == 0,
        Some(DefinitionResponse::Scalar(l)) => locations_normalized(r, seq![l]),
        Some(DefinitionResponse::Locations(ls)) => locations_normalized(r, ls@),
        Some(DefinitionResponse::LocationLinks(ls)) => links_normalized(r, ls@),
    }
}

/// Whether `out` lies in the file that `uri` names and spans exactly `range`: both ends,
/// line and character, as the analyzer gave them.
pub open spec fn points_at(out: DocumentLocation, uri: Seq<char>, range: Range) -> bool {
    &&& out.document_path@ == spec_uri_to_path(uri)
    &&& out.range.start.line == range.start.line
    &&& out.range.start.character == range.start.character
    &&& out.range.end.line == range.end.line
    &&& out.range.end.character == range.end.character
}

/// A definition response keeps each of its locations, in order and one for one: a location
/// keeps its own range, a link the selection range of its target; nothing else is added.
pub proof fn law_definitions_keep_their_ranges(definitions: Option<DefinitionResponse>, r: Seq<DocumentLocation>)
    requires
        definitions_normalized(definitions, r),
    ensures
        match definitions {
            None => r.len() == 0,
            Some(DefinitionResponse::Scalar(l)) => r.len() == 1 && points_at(r[0], l.uri@, l.range),
            Some(DefinitionResponse::Locations(ls)) => {
                &&& r.len() == ls.len()
                &&& forall|i: int| 0 <= i < ls.len() ==> points_at(#[trigger] r[i], ls[i].uri@, ls[i].range)
            },
            Some(DefinitionResponse::LocationLinks(ls)) => {
                &&& r.len() == ls.len()
                &&& forall|i: int|
                    0 <= i < ls.len() ==> points_at(#[trigger] r[i], ls[i].target_uri@, ls[i].target_selection_range)
            },
        },
{
    match definitions {
        Some(DefinitionResponse::Scalar(l)) => {
            assert(seq![l][0] == l);
        },
        _ => {},
    }
}

/// The label of a symbol kind number: the LSP name in snake case, or `unknown_` and the number.
pub open spec fn spec_symbol_kind_name(kind: i32) -> Seq<char> {
    if kind == 1 { "file"@ }
    else if kind == 2 { "module"@ }
    else if kind == 3 { "namespace"@ }
    else if kind == 4 { "package"@ }
    else if kind == 5 { "class"@ }
    else if kind == 6 { "method"@ }
    else if kind == 7 { "property"@ }
    else if kind == 8 { "field"@ }
    else if kind == 9 { "constructor"@ }
    else if kind == 10 { "enum"@ }
    else if kind == 11 { "interface"@ }
    else if kind == 12 { "function"@ }
    else if kind == 13 { "variable"@ }
    else if kind == 14 { "constant"@ }
    else if kind == 15 { "string"@ }
    else if kind == 16 { "number"@ }
    else if kind == 17 { "boolean"@ }
    else if kind == 18 { "array"@ }
    else if kind == 19 { "object"@ }
    else if kind == 20 { "key"@ }
    else if kind == 21 { "null"@ }
    else if kind == 22 { "enum_member"@ }
    else if kind == 23 { "struct"@ }
    else if kind == 24 { "event"@ }
    else if kind == 25 { "operator"@ }
    else if kind == 26 { "type_parameter"@ }
    else { "unknown_"@ + signed_decimal_text(kind as int) }
}

fn known_kind_name(kind: i32) -> (r: &'static str)
    requires
        1 <= kind <= 26,
    ensures
        r@ == spec_symbol_kind_name(kind),
{
    if kind == 1 { "file" }
    else if kind == 2 { "module" }
    else if kind == 3 { "namespace" }
    else if kind == 4 { "package" }
    else if kind == 5 { "class" }
    else if kind == 6 { "method" }
    else if kind == 7 { "property" }
    else if kind == 8 { "field" }
    else if kind == 9 { "constructor" }
    else if kind == 10 { "enum" }
    else if kind == 11 { "interface" }
    else if kind == 12 { "function" }
    else if kind == 13 { "variable" }
    else if kind == 14 { "constant" }
    else if kind == 15 { "string" }
    else if kind == 16 { "number" }
    else if kind == 17 { "boolean" }
    else if kind == 18 { "array" }
    else if kind == 19 { "object" }
    else if kind == 20 { "key" }
    else if kind == 21 { "null" }
    else if kind == 22 { "enum_member" }
    else if kind == 23 { "struct" }
    else if kind == 24 { "event" }
    else if kind == 25 { "operator" }
    else { "type_parameter" }
}

/// The stable label of a symbol kind number.
pub fn symbol_kind_name(kind: i32) -> (r: String)
    ensures
        r@ == spec_symbol_kind_name(kind),
{
    if 1 <= kind && kind <= 26 {
        known_kind_name(kind).to_owned()
    } else {
        let mut out: Vec<char> = Vec::new();
        push_str_chars(&mut out, "unknown_");
        push_signed_decimal(&mut out, kind as i128);
        assert(out@ =~= "unknown_"@ + signed_decimal_text(kind as int));
        string_from_chars(&out)
    }
}

/// Different known symbol kinds get different labels, no known label can be mistaken for the
/// label of an unknown kind, and a method is labelled `method` while a function is labelled
/// `function`.
pub proof fn law_symbol_kind_labels_distinct(k1: i32, k2: i32)
    requires
        1 <= k1 <= 26,
        k1 != k2,
    ensures
        spec_symbol_kind_name(k1) != spec_symbol_kind_name(k2),
        spec_symbol_kind_name(6) == "method"@,
        spec_symbol_kind_name(12) == "function"@,
{
    reveal_strlit("file");
    reveal_strlit("module");
    reveal_strlit("namespace");
    reveal_strlit("package");
    reveal_strlit("class");
    reveal_strlit("method");
    reveal_strlit("property");
    reveal_strlit("field");
    reveal_strlit("constructor");
    reveal_strlit("enum");
    reveal_strlit("interface");
    reveal_strlit("function");
    reveal_strlit("variable");
    reveal_strlit("constant");
    reveal_strlit("string");
    reveal_strlit("number");
    reveal_strlit("boolean");
    reveal_strlit("array");
    reveal_strlit("object");
    reveal_strlit("key");
    reveal_strlit("null");
    reveal_strlit("enum_member");
    reveal_strlit("struct");
    reveal_strlit("event");
    reveal_strlit("operator");
    reveal_strlit("type_parameter");
    reveal_strlit("unknown_");
    let a = spec_symbol_kind_name(k1);
    let b = spec_symbol_kind_name(k2);
    assert(a.len() > 0 && a[0] != 'u');
    if !(1 <= k2 <= 26) {
        assert(b[0] == 'u');
    } else {
        assert(a.len() != b.len() || a[0] != b[0] || a[a.len() - 1] != b[b.len() - 1]);
    }
}

/// Whether `out` summarizes the flat symbol `s`.
pub open spec fn flat_symbol_normalized(out: SymbolSummary, s: SymbolInformation) -> bool {
    &&& out.name@ == s.name@
    &&& out.kind@ == spec_symbol_kind_name(s.kind)
    &&& opt_view(out.container_name) == opt_view(s.container_name)
    &&& location_normalized(out.location, s.location.uri@, s.location.range)
}

/// The location of a workspace symbol: its location, or the start of the document it names.
pub open spec fn nested_location_normalized(out: DocumentLocation, l: WorkspaceSymbolLocation) -> bool {
    match l {
        WorkspaceSymbolLocation::Location(loc) => location_normalized(out, loc.uri@, loc.range),
        WorkspaceSymbolLocation::Uri { uri } => {
            &&& out.document_path@ == spec_uri_to_path(uri@)
            &&& out.range == (TextRange {
                start: TextPosition { line: 0, character: 0 },
                end: TextPosition { line: 0, character: 0 },
            })
        },
    }
}

/// Whether `out` summarizes the workspace symbol `s`.
pub open spec fn nested_symbol_normalized(out: SymbolSummary, s: WorkspaceSymbol) -> bool {
    &&& out.name@ == s.name@
    &&& out.kind@ == spec_symbol_kind_name(s.kind)
    &&& opt_view(out.container_name) == opt_view(s.container_name)
    &&& nested_location_normalized(out.location, s.location)
}

fn clone_opt(s: &Option<String>) -> (r: Option<String>)
    ensures
        opt_view(r) == opt_view(*s),
{
    match s {
        Some(t) => Some(t.clone()),
        None => None,
    }
}

fn flat_summary(symbol: &SymbolInformation) -> (r: SymbolSummary)
    ensures
        flat_symbol_normalized(r, *symbol),
{
    SymbolSummary {
        name: symbol.name.clone(),
        kind: symbol_kind_name(symbol.kind),
        container_name: clone_opt(&symbol.container_name),
        location: location_at(symbol.location.uri.as_str(), symbol.location.range),
    }
}

fn nested_summary(symbol: &WorkspaceSymbol) -> (r: SymbolSummary)
    ensures
        nested_symbol_normalized(r, *symbol),
{
    let location = match &symbol.location {
        WorkspaceSymbolLocation::Location(l) => location_at(l.uri.as_str(), l.range),
        WorkspaceSymbolLocation::Uri { uri } => DocumentLocation {
            document_path: uri_to_path(uri.as_str()),
            range: TextRange {
                start: TextPosition { line: 0, character: 0 },
                end: TextPosition { line: 0, character: 0 },
            },
        },
    };
    SymbolSummary {
        name: symbol.name.clone(),
        kind: symbol_kind_name(symbol.kind),
        container_name: clone_opt(&symbol.container_name),
        location,
    }
}

/// A symbol summary keeps the symbol's name and points at exactly the range where the symbol
/// stands; a workspace symbol located only by its document points at the document's start.
pub proof fn law_symbol_summaries_keep_their_place(
    flat_out: SymbolSummary,
    flat: SymbolInformation,
    nested_out: SymbolSummary,
    nested: WorkspaceSymbol,
)
    requires
        flat_symbol_normalized(flat_out, flat),
        nested_symbol_normalized(nested_out, nested),
    ensures
        flat_out.name@ == flat.name@,
        points_at(flat_out.location, flat.location.uri@, flat.location.range),
        nested_out.name@ == nested.name@,
        match nested.location {
            WorkspaceSymbolLocation::Location(l) => points_at(nested_out.location, l.uri@, l.range),
            WorkspaceSymbolLocation::Uri { uri } => {
                &&& nested_out.location.document_path@ == spec_uri_to_path(uri@)
                &&& nested_out.location.range.start.line == 0
                &&& nested_out.location.range.start.character == 0
                &&& nested_out.location.range.end.line == 0
                &&& nested_out.location.range.end.character == 0
            },
        },
{
}

/// Summarizes flat symbol information.
pub fn normalize_flat_symbol(symbol: SymbolInformation) -> (r: SymbolSummary)
    ensures
        flat_symbol_normalized(r, symbol),
{
    flat_summary(&symbol)
}

/// Summarizes a workspace symbol; a symbol located only by URI points at the document start.
pub fn normalize_nested_symbol(symbol: WorkspaceSymbol) -> (r: SymbolSummary)
    ensures
        nested_symbol_normalized(r, symbol),
{
    nested_summary(&symbol)
}

/// Normalizes a workspace symbol response, keeping the order of the symbols.
pub fn normalize_workspace_symbols(symbols: Option<WorkspaceSymbolResponse>) -> (r: Vec<SymbolSummary>)
    ensures
        match symbols {
            None => r@.len() == 0,
            Some(WorkspaceSymbolResponse::Flat(ss)) => {
                &&& r@.len() == ss@.len()
                &&& forall|i: int| 0 <= i < ss@.len() ==> flat_symbol_normalized(#[trigger] r@[i], ss@[i])
            },
            Some(WorkspaceSymbolResponse::Nested(ss)) => {
                &&& r@.len() == ss@.len()
                &&& forall|i: int| 0 <= i < ss@.len() ==> nested_symbol_normalized(#[trigger] r@[i], ss@[i])
            },
        },
{
    match symbols {
        None => Vec::new(),
        Some(WorkspaceSymbolResponse::Flat(ss)) => {
            let mut out: Vec<SymbolSummary> = Vec::new();
            let mut i: usize = 0;
            while i < ss.len()
                invariant
                    i <= ss@.len(),
                    out@.len() == i,
                    forall|k: int| 0 <= k < i ==> flat_symbol_normalized(#[trigger] out@[k], ss@[k]),
                decreases ss@.len() - i,
            {
                out.push(flat_summary(&ss[i]));
                i += 1;
            }
            out
        },
        Some(WorkspaceSymbolResponse::Nested(ss)) => {
            let mut out: Vec<SymbolSummary> = Vec::new();
            let mut i: usize = 0;
            while i < ss.len()
                invariant
                    i <= ss@.len(),
                    out@.len() == i,
                    forall|k: int| 0 <= k < i ==> nested_symbol_normalized(#[trigger] out@[k], ss@[k]),
                decreases ss@.len() - i,
            {
                out.push(nested_summary(&ss[i]));
                i += 1;
            }
            out
        },
    }
}

/// A workspace change in the mathematical model.
pub enum ChangeView {
    /// Edits of one document, in order.
    TextEdits { document_path: Seq<char>, edits: Seq<(TextRange, Seq<char>)> },
    /// A file to create.
    CreateFile { path: Seq<char> },
    /// A file to rename.
    RenameFile { old_path: Seq<char>, new_path: Seq<char> },
    /// A file to delete.
    DeleteFile { path: Seq<char> },
}

impl View for WorkspaceChangeSummary {
    type V = ChangeView;

    open spec fn view(&self) -> ChangeView {
        match self {
            WorkspaceChangeSummary::TextEdits { document_path, edits } => ChangeView::TextEdits {
                document_path: document_path@,
                edits: edits@.map_values(|e: TextEditSummary| edit_summary_view(e)),
            },
            WorkspaceChangeSummary::CreateFile { path } => ChangeView::CreateFile { path: path@ },
            WorkspaceChangeSummary::RenameFile { old_path, new_path } => ChangeView::RenameFile {
                old_path: old_path@,
                new_path: new_path@,
            },
            WorkspaceChangeSummary::DeleteFile { path } => ChangeView::DeleteFile { path: path@ },
        }
    }
}

/// The views of a sequence of changes.
pub open spec fn changes_view(cs: Seq<WorkspaceChangeSummary>) -> Seq<ChangeView> {
    cs.map_values(|c: WorkspaceChangeSummary| c@)
}

/// The edit that a plain or annotated text edit carries.
pub open spec fn edit_kind_view(k: TextEditKind) -> (TextRange, Seq<char>) {
    match k {
        TextEditKind::Plain(e) => text_edit_view(e),
        TextEditKind::Annotated(a) => text_edit_view(a.text_edit),
    }
}

/// The change that an edit of one text document makes.
pub open spec fn document_edit_view(e: TextDocumentEdit) -> ChangeView {
    ChangeView::TextEdits {
        document_path: spec_uri_to_path(e.text_document.uri@),
        edits: e.edits@.map_values(|k: TextEditKind| edit_kind_view(k)),
    }
}

/// The change that a document change operation makes.
pub open spec fn operation_view(op: DocumentChangeOperation) -> ChangeView {
    match op {
        DocumentChangeOperation::Edit(e) => document_edit_view(e),
        DocumentChangeOperation::Op(ResourceOp::Create(c)) => ChangeView::CreateFile {
            path: spec_uri_to_path(c.uri@),
        },
        DocumentChangeOperation::Op(ResourceOp::Rename(r)) => ChangeView::RenameFile {
            old_path: spec_uri_to_path(r.old_uri@),
            new_path: spec_uri_to_path(r.new_uri@),
        },
        DocumentChangeOperation::Op(ResourceOp::Delete(d)) => ChangeView::DeleteFile {
            path: spec_uri_to_path(d.uri@),
        },
    }
}

/// The change that the edits of one URI in a change map make.
pub open spec fn uri_edits_view(entry: (String, Vec<TextEdit>)) -> ChangeView {
    ChangeView::TextEdits {
        document_path: spec_uri_to_path(entry.0@),
        edits: entry.1@.map_values(|e: TextEdit| text_edit_view(e)),
    }
}

/// The changes of a workspace edit: its document changes when it has them, else its
/// per-URI text edits, else none.
pub open spec fn spec_edit_changes(edit: WorkspaceEdit) -> Seq<ChangeView> {
    match edit.document_changes {
        Some(DocumentChanges::Edits(es)) => es@.map_values(|e: TextDocumentEdit| document_edit_view(e)),
        Some(DocumentChanges::Operations(ops)) => ops@.map_values(
            |o: DocumentChangeOperation| operation_view(o),
        ),
        None => match edit.changes {
            Some(cs) => cs@.map_values(|c: (String, Vec<TextEdit>)| uri_edits_view(c)),
            None => Seq::empty(),
        },
    }
}

/// Whether a summarized edit spans exactly the range of `e` and inserts exactly its text.
pub open spec fn carries_edit(v: (TextRange, Seq<char>), e: TextEdit) -> bool {
    &&& v.0.start.line == e.range.start.line
    &&& v.0.start.character == e.range.start.character
    &&& v.0.end.line == e.range.end.line
    &&& v.0.end.character == e.range.end.character
    &&& v.1 == e.new_text@
}

/// Whether change `i` of `changes` edits the file that `uri` names and its edit `j` carries `e`.
pub open spec fn change_carries_edit(changes: Seq<ChangeView>, i: int, j: int, uri: Seq<char>, e: TextEdit) -> bool {
    &&& 0 <= i < changes.len()
    &&& changes[i] matches ChangeView::TextEdits { document_path, edits }
    &&& document_path == spec_uri_to_path(uri)
    &&& 0 <= j < edits.len()
    &&& carries_edit(edits[j], e)
}

/// Every text edit of a workspace edit reaches its summary with its range and its replacement
/// text unchanged, whether it comes plain, annotated, or from the per-URI map; an annotation
/// changes nothing of what the edit does.
pub proof fn law_workspace_edit_keeps_each_edit(edit: WorkspaceEdit, i: int, j: int)
    ensures
        match edit.document_changes {
            Some(DocumentChanges::Edits(es)) => (0 <= i < es.len() && 0 <= j < es[i].edits.len()) ==> (
            match es[i].edits[j] {
                TextEditKind::Plain(e) => change_carries_edit(
                    spec_edit_changes(edit),
                    i,
                    j,
                    es[i].text_document.uri@,
                    e,
                ),
                TextEditKind::Annotated(a) => change_carries_edit(
                    spec_edit_changes(edit),
                    i,
                    j,
                    es[i].text_document.uri@,
                    a.text_edit,
                ),
            }),
            Some(DocumentChanges::Operations(ops)) => (0 <= i < ops.len() && ops[i] is Edit) ==> (
            match ops[i] {
                DocumentChangeOperation::Edit(de) => 0 <= j < de.edits.len() ==> match de.edits[j] {
                    TextEditKind::Plain(e) => change_carries_edit(
                        spec_edit_changes(edit),
                        i,
                        j,
                        de.text_document.uri@,
                        e,
                    ),
                    TextEditKind::Annotated(a) => change_carries_edit(
                        spec_edit_changes(edit),
                        i,
                        j,
                        de.text_document.uri@,
                        a.text_edit,
                    ),
                },
                _ => true,
            }),
            None => match edit.changes {
                Some(cs) => (0 <= i < cs.len() && 0 <= j < cs[i].1.len()) ==> change_carries_edit(
                    spec_edit_changes(edit),
                    i,
                    j,
                    cs[i].0@,
                    cs[i].1[j],
                ),
                None => spec_edit_changes(edit).len() == 0,
            },
        },
{
}

fn summarize_text_edits(edits: &Vec<TextEdit>) -> (r: Vec<TextEditSummary>)
    ensures
        r@.map_values(|e: TextEditSummary| edit_summary_view(e)) == edits@.map_values(
            |e: TextEdit| text_edit_view(e),
        ),
{
    let mut out: Vec<TextEditSummary> = Vec::new();
    let mut i: usize = 0;
    while i < edits.len()
        invariant
            i <= edits@.len(),
            out@.len() == i,
            forall|k: int| 0 <= k < i ==> edit_summary_view(#[trigger] out@[k]) == text_edit_view(edits@[k]),
        decreases edits@.len() - i,
    {
        out.push(summarize_text_edit(&edits[i]));
        i += 1;
    }
    assert(out@.map_values(|e: TextEditSummary| edit_summary_view(e)) =~= edits@.map_values(
        |e: TextEdit| text_edit_view(e),
    ));
    out
}

fn summarize_edit_kinds(edits: &Vec<TextEditKind>) -> (r: Vec<TextEditSummary>)
    ensures
        r@.map_values(|e: TextEditSummary| edit_summary_view(e)) == edits@.map_values(
            |k: TextEditKind| edit_kind_view(k),
        ),
{
    let mut out: Vec<TextEditSummary> = Vec::new();
    let mut i: usize = 0;
    while i < edits.len()
        invariant
            i <= edits@.len(),
            out@.len() == i,
            forall|k: int| 0 <= k < i ==> edit_summary_view(#[trigger] out@[k]) == edit_kind_view(edits@[k]),
        decreases edits@.len() - i,
    {
        let s = match &edits[i] {
            TextEditKind::Plain(e) => summarize_text_edit(e),
            TextEditKind::Annotated(a) => summarize_text_edit(&a.text_edit),
        };
        out.push(s);
        i += 1;
    }
    assert(out@.map_values(|e: TextEditSummary| edit_summary_view(e)) =~= edits@.map_values(
        |k: TextEditKind| edit_kind_view(k),
    ));
    out
}

fn summarize_document_edit(edit: &TextDocumentEdit) -> (r: WorkspaceChangeSummary)
    ensures
        r@ == document_edit_view(*edit),
{
    WorkspaceChangeSummary::TextEdits {
        document_path: uri_to_path(edit.text_document.uri.as_str()),
        edits: summarize_edit_kinds(&edit.edits),
    }
}

fn summarize_operation(op: &DocumentChangeOperation) -> (r: WorkspaceChangeSummary)
    ensures
        r@ == operation_view(*op),
{
    match op {
        DocumentChangeOperation::Edit(e) => summarize_document_edit(e),
        DocumentChangeOperation::Op(ResourceOp::Create(c)) => WorkspaceChangeSummary::CreateFile {
            path: uri_to_path(c.uri.as_str()),
        },
        DocumentChangeOperation::Op(ResourceOp::Rename(r)) => WorkspaceChangeSummary::RenameFile {
            old_path: uri_to_path(r.old_uri.as_str()),
            new_path: uri_to_path(r.new_uri.as_str()),
        },
        DocumentChangeOperation::Op(ResourceOp::Delete(d)) => WorkspaceChangeSummary::DeleteFile {
            path: uri_to_path(d.uri.as_str()),
        },
    }
}

/// Normalizes a workspace edit into file changes, in order: the document changes when the
/// edit has them, else the text edits of each URI.
pub fn normalize_workspace_edit(edit: WorkspaceEdit) -> (r: WorkspaceEditSummary)
    requires
        edit.wf(),
    ensures
        changes_view(r.changes@) == spec_edit_changes(edit),
{
    let mut changes: Vec<WorkspaceChangeSummary> = Vec::new();
    match &edit.document_changes {
        Some(DocumentChanges::Edits(edits)) => {
            let mut i: usize = 0;
            while i < edits.len()
                invariant
                    i <= edits@.len(),
                    changes@.len() == i,
                    forall|k: int| 0 <= k < i ==> (#[trigger] changes@[k])@ == document_edit_view(edits@[k]),
                decreases edits@.len() - i,
            {
                changes.push(summarize_document_edit(&edits[i]));
                i += 1;
            }
            assert(changes_view(changes@) =~= spec_edit_changes(edit));
        },
        Some(DocumentChanges::Operations(ops)) => {
            let mut i: usize = 0;
            while i < ops.len()
                invariant
                    i <= ops@.len(),
                    changes@.len() == i,
                    forall|k: int| 0 <= k < i ==> (#[trigger] changes@[k])@ == operation_view(ops@[k]),
                decreases ops@.len() - i,
            {
                changes.push(summarize_operation(&ops[i]));
                i += 1;
            }
            assert(changes_view(changes@) =~= spec_edit_changes(edit));
        },
        None => {
            match &edit.changes {
                Some(text_changes) => {
                    let mut i: usize = 0;
                    while i < text_changes.len()
                        invariant
                            i <= text_changes@.len(),
                            changes@.len() == i,
                            forall|k: int| 0 <= k < i ==> (#[trigger] changes@[k])@ == uri_edits_view(text_changes@[k]),
                        decreases text_changes@.len() - i,
                    {
                        let entry = &text_changes[i];
                        changes.push(WorkspaceChangeSummary::TextEdits {
                            document_path: uri_to_path(entry.0.as_str()),
                            edits: summarize_text_edits(&entry.1),
                        });
                        i += 1;
                    }
                    assert(changes_view(changes@) =~= spec_edit_changes(edit));
                },
                None => {
                    assert(changes_view(changes@) =~= spec_edit_changes(edit));
                },
            }
        },
    }
    WorkspaceEditSummary { changes }
}

} // verus!
