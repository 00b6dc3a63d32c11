use shl_lsp::document::{parse_program, slow_input, update_document, DocumentUpdate};

fn sample_program() -> &'static str {
    "fn add(a: u32, b: u32) -> u32 { let (_, res): (bool, u32) = jet::add_32(a, b); res }
         fn main() {}"
}

fn invalid_program_on_ast() -> &'static str {
    "fn add(a: u32, b: u32) -> u32 {}"
}

fn invalid_program_on_parsing() -> &'static str {
    "fn add(a: u32 b: u32) -> u32 {}"
}

#[test]
fn test_parse_program_valid() {
    let (err, doc) = parse_program(sample_program());
    assert!(err.is_none(), "Expected no parsing error");
    let doc = doc.expect("Expected Some(Document)");
    assert_eq!(doc.functions.map.len(), 2);
}

#[test]
fn test_parse_program_invalid_ast() {
    let (err, doc) = parse_program(invalid_program_on_ast());
    assert!(
        err.unwrap()
            .message
            .contains("Expected expression of type `u32`, found type `()`"),
        "Expected error on return type"
    );
    assert!(doc.is_some(), "Expected problem in AST build, not parse");
}

#[test]
fn test_parse_program_invalid_parse() {
    let (err, doc) = parse_program(invalid_program_on_parsing());
    assert!(
        err.unwrap().message.contains("Grammar error"),
        "Expected `Grammar error`"
    );
    assert!(doc.is_none(), "Expected no document to return");
}

#[test]
fn update_publishes_nothing_on_success() {
    let mut slot = None;
    let outcome = update_document(&mut slot, sample_program());
    assert!(matches!(outcome, DocumentUpdate::Clean));
    let doc = slot.as_ref().expect("document should be stored");
    assert_eq!(doc.functions.map.len(), 2);
}

#[test]
fn update_reports_analysis_failure_and_reindexes() {
    let mut slot = None;
    update_document(&mut slot, sample_program());
    let outcome = update_document(&mut slot, invalid_program_on_ast());
    match outcome {
        DocumentUpdate::AnalysisIssue { range: _, message } => {
            assert!(message.contains("Expected expression of type `u32`, found type `()`"));
        }
        other => panic!("expected an analysis diagnostic, got {:?}", other),
    }
    let doc = slot.as_ref().expect("document should be stored");
    assert_eq!(doc.functions.map.len(), 1, "index should reflect the new parse");
    assert_eq!(doc.functions.map[0].name, "add");
}

#[test]
fn update_keeps_index_and_replaces_text_on_parse_failure() {
    let mut slot = None;
    update_document(&mut slot, sample_program());
    let outcome = update_document(&mut slot, invalid_program_on_parsing());
    match outcome {
        DocumentUpdate::ParseIssue { range: _, message } => {
            assert!(message.contains("Grammar error"));
        }
        other => panic!("expected a parse diagnostic, got {:?}", other),
    }
    let doc = slot.as_ref().expect("document should still be open");
    assert_eq!(doc.functions.map.len(), 2, "stale index should be kept");
    assert_eq!(doc.text.to_string(), invalid_program_on_parsing());
}

#[test]
fn update_without_open_document_stores_nothing_on_parse_failure() {
    let mut slot = None;
    let outcome = update_document(&mut slot, invalid_program_on_parsing());
    assert!(matches!(outcome, DocumentUpdate::ParseIssue { .. }));
    assert!(slot.is_none());
}

#[test]
fn slow_input_detects_bracket_runs() {
    assert!(slow_input("(((("));
    assert!(slow_input("([ {\t("));
    assert!(!slow_input("(a(b(c("));
    assert!(!slow_input("((( x ((("));
    assert!(!slow_input(""));
    assert!(slow_input("(x,((( ["));
    assert!(!slow_input("fn n(){ { (s,(( (Ns"));
}

fn decl(name: &str, line: usize) -> shl_lsp::funcs::FunctionDecl {
    shl_lsp::funcs::FunctionDecl {
        name: name.to_string(),
        params: Vec::new(),
        ret: None,
        span: shl_lsp::coords::Span {
            start: shl_lsp::coords::Position { line, col: 1 },
            end: shl_lsp::coords::Position { line, col: 2 },
        },
        calls: Vec::new(),
    }
}

#[test]
fn function_index_insert_replaces_same_name() {
    let mut index = shl_lsp::funcs::Functions::new();
    index.insert("add".to_string(), decl("add", 1), "first".to_string());
    index.insert("main".to_string(), decl("main", 2), String::new());
    index.insert("add".to_string(), decl("add", 3), "second".to_string());
    assert_eq!(index.map.len(), 2);
    assert_eq!(index.map[0].name, "add");
    assert_eq!(index.map[0].doc, "second");
    assert_eq!(index.map[0].func.span.start.line, 3);
    assert_eq!(index.map[1].name, "main");
    assert!(index.get_func("add").is_some());
    assert!(index.get("absent").is_none());
}
