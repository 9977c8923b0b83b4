use rust_lsp_mcp::lsp::{
    AnnotatedTextEdit, CreateFile, DefinitionResponse, DeleteFile, DocumentChangeOperation,
    DocumentChanges, Hover, HoverContents, LanguageString, Location, LocationLink, MarkedString,
    MarkupContent, MarkupKind, OptionalVersionedTextDocumentIdentifier, Position, Range,
    RenameFile, ResourceOp, SymbolInformation, TextDocumentEdit, TextEdit, TextEditKind,
    WorkspaceEdit, WorkspaceSymbol, WorkspaceSymbolLocation, WorkspaceSymbolResponse,
};
use rust_lsp_mcp::server::normalize::{
    normalize_definitions, normalize_flat_symbol, normalize_hover, normalize_hover_contents,
    normalize_location, normalize_marked_string, normalize_nested_symbol, normalize_range,
    normalize_text_edit, normalize_workspace_edit, normalize_workspace_symbols,
    symbol_kind_name, to_lsp_position,
};
use rust_lsp_mcp::server::schema::{HoverContent, TextPosition, TextRange, WorkspaceChangeSummary};

fn range(a: u32, b: u32, c: u32, d: u32) -> Range {
    Range {
        start: Position { line: a, character: b },
        end: Position { line: c, character: d },
    }
}

fn text_range(a: u32, b: u32, c: u32, d: u32) -> TextRange {
    TextRange {
        start: TextPosition { line: a, character: b },
        end: TextPosition { line: c, character: d },
    }
}

fn edit(r: Range, text: &str) -> TextEdit {
    TextEdit { range: r, new_text: text.to_owned() }
}

#[test]
fn symbol_kind_names_are_stable_for_known_variants() {
    assert_eq!(symbol_kind_name(12), "function");
    assert_eq!(symbol_kind_name(22), "enum_member");
    assert_eq!(symbol_kind_name(26), "type_parameter");
}

#[test]
fn symbol_kind_names_fallback_for_unknown_variants() {
    assert_eq!(symbol_kind_name(99), "unknown_99");
}

#[test]
fn symbol_kind_names_cover_the_whole_range() {
    assert_eq!(symbol_kind_name(1), "file");
    assert_eq!(symbol_kind_name(2), "module");
    assert_eq!(symbol_kind_name(5), "class");
    assert_eq!(symbol_kind_name(10), "enum");
    assert_eq!(symbol_kind_name(23), "struct");
    assert_eq!(symbol_kind_name(0), "unknown_0");
    assert_eq!(symbol_kind_name(-4), "unknown_-4");
}

#[test]
fn positions_and_ranges_keep_their_coordinates() {
    let p = to_lsp_position(TextPosition { line: 3, character: 9 });
    assert_eq!(p, Position { line: 3, character: 9 });
    assert_eq!(normalize_range(range(1, 2, 3, 4)), text_range(1, 2, 3, 4));
}

#[test]
fn locations_become_paths() {
    let location = normalize_location(Location {
        uri: "file:///workspace/src/lib.rs".to_owned(),
        range: range(4, 8, 4, 14),
    });
    assert_eq!(location.document_path, "/workspace/src/lib.rs");
    assert_eq!(location.range, text_range(4, 8, 4, 14));
}

#[test]
fn marked_strings_render_language_strings_as_fenced_code() {
    let fenced = normalize_marked_string(MarkedString::LanguageString(LanguageString {
        language: "rust".to_owned(),
        value: "fn answer() -> u32".to_owned(),
    }));
    assert_eq!(fenced, "```rust\nfn answer() -> u32\n```");
    assert_eq!(normalize_marked_string(MarkedString::Scalar("plain".to_owned())), "plain");
}

#[test]
fn hover_contents_normalize_to_markdown_or_plain_text() {
    let array = normalize_hover_contents(HoverContents::Array(vec![
        MarkedString::Scalar("first".to_owned()),
        MarkedString::LanguageString(LanguageString { language: "rust".to_owned(), value: "x".to_owned() }),
        MarkedString::Scalar("last".to_owned()),
    ]));
    assert_eq!(array, HoverContent::Markdown("first\n\n```rust\nx\n```\n\nlast".to_owned()));
    assert_eq!(normalize_hover_contents(HoverContents::Array(vec![])), HoverContent::Markdown(String::new()));
    let plain = normalize_hover_contents(HoverContents::Markup(MarkupContent {
        kind: MarkupKind::PlainText,
        value: "text".to_owned(),
    }));
    assert_eq!(plain, HoverContent::PlainText("text".to_owned()));
    let markdown = normalize_hover_contents(HoverContents::Markup(MarkupContent {
        kind: MarkupKind::Markdown,
        value: "*md*".to_owned(),
    }));
    assert_eq!(markdown, HoverContent::Markdown("*md*".to_owned()));
    assert_eq!(
        normalize_hover_contents(HoverContents::Scalar("s".to_owned())),
        HoverContent::Markdown("s".to_owned())
    );
}

#[test]
fn hovers_keep_their_range() {
    let hover = normalize_hover(Hover {
        contents: HoverContents::LanguageString(LanguageString { language: "rust".to_owned(), value: "fn answer".to_owned() }),
        range: Some(range(1, 4, 1, 10)),
    });
    assert_eq!(hover.contents, HoverContent::Markdown("```rust\nfn answer\n```".to_owned()));
    assert_eq!(hover.range, Some(text_range(1, 4, 1, 10)));
}

#[test]
fn definitions_of_every_shape_become_locations() {
    assert!(normalize_definitions(None).is_empty());
    let scalar = normalize_definitions(Some(DefinitionResponse::Scalar(Location {
        uri: "file:///w/a.rs".to_owned(),
        range: range(0, 1, 0, 2),
    })));
    assert_eq!(scalar.len(), 1);
    assert_eq!(scalar[0].document_path, "/w/a.rs");
    let links = normalize_definitions(Some(DefinitionResponse::LocationLinks(vec![LocationLink {
        origin_selection_range: None,
        target_uri: "file:///w/b.rs".to_owned(),
        target_range: range(0, 0, 9, 0),
        target_selection_range: range(2, 3, 2, 9),
    }])));
    assert_eq!(links[0].document_path, "/w/b.rs");
    assert_eq!(links[0].range, text_range(2, 3, 2, 9));
    let many = normalize_definitions(Some(DefinitionResponse::Locations(vec![
        Location { uri: "file:///w/1.rs".to_owned(), range: range(0, 0, 0, 0) },
        Location { uri: "file:///w/2.rs".to_owned(), range: range(1, 1, 1, 1) },
    ])));
    assert_eq!(many.len(), 2);
    assert_eq!(many[1].document_path, "/w/2.rs");
}

#[test]
fn symbols_are_summarized_with_kind_labels() {
    let flat = normalize_flat_symbol(SymbolInformation {
        name: "answer".to_owned(),
        kind: 12,
        location: Location { uri: "file:///w/lib.rs".to_owned(), range: range(0, 7, 0, 13) },
        container_name: Some("crate".to_owned()),
    });
    assert_eq!(flat.name, "answer");
    assert_eq!(flat.kind, "function");
    assert_eq!(flat.container_name.as_deref(), Some("crate"));
    assert_eq!(flat.location.document_path, "/w/lib.rs");

    let nested = normalize_nested_symbol(WorkspaceSymbol {
        name: "Thing".to_owned(),
        kind: 23,
        location: WorkspaceSymbolLocation::Uri { uri: "file:///w/thing.rs".to_owned() },
        container_name: None,
    });
    assert_eq!(nested.kind, "struct");
    assert_eq!(nested.location.document_path, "/w/thing.rs");
    assert_eq!(nested.location.range, text_range(0, 0, 0, 0));

    let all = normalize_workspace_symbols(Some(WorkspaceSymbolResponse::Nested(vec![WorkspaceSymbol {
        name: "m".to_owned(),
        kind: 2,
        location: WorkspaceSymbolLocation::Location(Location { uri: "file:///w/m.rs".to_owned(), range: range(3, 0, 3, 1) }),
        container_name: None,
    }])));
    assert_eq!(all.len(), 1);
    assert_eq!(all[0].kind, "module");
    assert_eq!(all[0].location.range, text_range(3, 0, 3, 1));
    assert!(normalize_workspace_symbols(None).is_empty());
}

#[test]
fn text_edits_keep_range_and_text() {
    let summary = normalize_text_edit(edit(range(0, 7, 0, 13), "renamed"));
    assert_eq!(summary.range, text_range(0, 7, 0, 13));
    assert_eq!(summary.new_text, "renamed");
}

#[test]
fn workspace_edits_prefer_document_changes() {
    let summary = normalize_workspace_edit(WorkspaceEdit {
        changes: Some(vec![("file:///w/ignored.rs".to_owned(), vec![edit(range(0, 0, 0, 1), "x")])]),
        document_changes: Some(DocumentChanges::Operations(vec![
            DocumentChangeOperation::Edit(TextDocumentEdit {
                text_document: OptionalVersionedTextDocumentIdentifier { uri: "file:///w/a.rs".to_owned(), version: Some(3) },
                edits: vec![
                    TextEditKind::Plain(edit(range(1, 0, 1, 3), "one")),
                    TextEditKind::Annotated(AnnotatedTextEdit {
                        text_edit: edit(range(2, 0, 2, 3), "two"),
                        annotation_id: "a".to_owned(),
                    }),
                ],
            }),
            DocumentChangeOperation::Op(ResourceOp::Create(CreateFile { uri: "file:///w/new.rs".to_owned() })),
            DocumentChangeOperation::Op(ResourceOp::Rename(RenameFile {
                old_uri: "file:///w/old.rs".to_owned(),
                new_uri: "file:///w/renamed%20file.rs".to_owned(),
            })),
            DocumentChangeOperation::Op(ResourceOp::Delete(DeleteFile { uri: "file:///w/gone.rs".to_owned() })),
        ])),
    });
    assert_eq!(summary.changes.len(), 4);
    match &summary.changes[0] {
        WorkspaceChangeSummary::TextEdits { document_path, edits } => {
            assert_eq!(document_path, "/w/a.rs");
            assert_eq!(edits.len(), 2);
            assert_eq!(edits[1].new_text, "two");
            assert_eq!(edits[1].range, text_range(2, 0, 2, 3));
        }
        other => panic!("unexpected change: {other:?}"),
    }
    assert_eq!(summary.changes[1], WorkspaceChangeSummary::CreateFile { path: "/w/new.rs".to_owned() });
    assert_eq!(
        summary.changes[2],
        WorkspaceChangeSummary::RenameFile { old_path: "/w/old.rs".to_owned(), new_path: "/w/renamed file.rs".to_owned() }
    );
    assert_eq!(summary.changes[3], WorkspaceChangeSummary::DeleteFile { path: "/w/gone.rs".to_owned() });
}

#[test]
fn workspace_edits_fall_back_to_per_uri_changes() {
    let summary = normalize_workspace_edit(WorkspaceEdit {
        changes: Some(vec![
            ("file:///w/a.rs".to_owned(), vec![edit(range(0, 0, 0, 1), "x"), edit(range(1, 0, 1, 1), "y")]),
            ("file:///w/b.rs".to_owned(), vec![]),
        ]),
        document_changes: None,
    });
    assert_eq!(summary.changes.len(), 2);
    match &summary.changes[0] {
        WorkspaceChangeSummary::TextEdits { document_path, edits } => {
            assert_eq!(document_path, "/w/a.rs");
            assert_eq!(edits.len(), 2);
            assert_eq!(edits[0].new_text, "x");
        }
        other => panic!("unexpected change: {other:?}"),
    }
    let empty = normalize_workspace_edit(WorkspaceEdit { changes: None, document_changes: None });
    assert!(empty.changes.is_empty());
    let edits_only = normalize_workspace_edit(WorkspaceEdit {
        changes: None,
        document_changes: Some(DocumentChanges::Edits(vec![TextDocumentEdit {
            text_document: OptionalVersionedTextDocumentIdentifier { uri: "file:///w/c.rs".to_owned(), version: None },
            edits: vec![TextEditKind::Plain(edit(range(0, 0, 0, 0), "z"))],
        }])),
    });
    assert_eq!(edits_only.changes.len(), 1);
}
