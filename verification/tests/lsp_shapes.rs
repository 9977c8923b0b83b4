use rust_lsp_mcp::lsp::{
    CompletionItem, CompletionList, CompletionResponse, DefinitionResponse, DefinitionTarget, Location,
    LocationLink, Position, Range,
};

fn item(label: &str) -> CompletionItem {
    CompletionItem { label: label.to_owned(), kind: None, detail: None, documentation: None, insert_text: None }
}

fn range() -> Range {
    Range { start: Position { line: 0, character: 0 }, end: Position { line: 0, character: 5 } }
}

#[test]
fn completion_arrays_are_complete_lists() {
    let items = CompletionResponse::Array(vec![item("answer"), item("another")]).into_completion_items();
    assert!(!items.is_incomplete);
    assert_eq!(items.items.len(), 2);
    assert_eq!(items.items[0].label, "answer");
    let list = CompletionResponse::List(CompletionList { is_incomplete: true, items: vec![item("x")] }).into_completion_items();
    assert!(list.is_incomplete);
    assert_eq!(list.items[0].label, "x");
}

#[test]
fn definition_responses_flatten_into_targets_in_order() {
    let scalar = DefinitionResponse::Scalar(Location { uri: "file:///a.rs".to_owned(), range: range() }).into_targets();
    assert_eq!(scalar.len(), 1);
    assert!(matches!(&scalar[0], DefinitionTarget::Location(l) if l.uri == "file:///a.rs"));
    let many = DefinitionResponse::Locations(vec![
        Location { uri: "file:///a.rs".to_owned(), range: range() },
        Location { uri: "file:///b.rs".to_owned(), range: range() },
    ])
    .into_targets();
    assert_eq!(many.len(), 2);
    assert!(matches!(&many[1], DefinitionTarget::Location(l) if l.uri == "file:///b.rs"));
    let links = DefinitionResponse::LocationLinks(vec![LocationLink {
        origin_selection_range: None,
        target_uri: "file:///c.rs".to_owned(),
        target_range: range(),
        target_selection_range: range(),
    }])
    .into_targets();
    assert!(matches!(&links[0], DefinitionTarget::LocationLink(l) if l.target_uri == "file:///c.rs"));
}
