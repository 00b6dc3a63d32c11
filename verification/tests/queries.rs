use shl_lsp::completion::{CompletionProvider, EntryKind};
use shl_lsp::coords::{EditorPosition, EditorRange};
use shl_lsp::document::parse_program;
use shl_lsp::errors::LspError;
use shl_lsp::queries::{completion_query, definition_query, hover_query, references_query};
use shl_lsp::template::FunctionTemplate;

use simplicityhl::jet::{source_type, target_type};
use simplicityhl::simplicity::jet::Elements;

fn registry_templates() -> Vec<FunctionTemplate> {
    Elements::ALL
        .iter()
        .map(|jet| {
            FunctionTemplate::simple(
                jet.to_string(),
                source_type(*jet).iter().map(|ty| ty.to_string()).collect(),
                target_type(*jet).to_string(),
                String::new(),
            )
        })
        .collect()
}

fn sample_program() -> &'static str {
    "fn add(a: u32, b: u32) -> u32 {\n    let (_, res): (bool, u32) = jet::add_32(a, b);\n    res\n}\nfn main() {\n    let r: u32 = add(10, 20);\n    assert!(jet::eq_32(r, 30));\n}"
}

fn pos(line: u32, character: u32) -> EditorPosition {
    EditorPosition { line, character }
}

fn range(l1: u32, c1: u32, l2: u32, c2: u32) -> EditorRange {
    EditorRange { start: pos(l1, c1), end: pos(l2, c2) }
}

#[test]
fn definition_on_call_site_returns_declaration_name_range() {
    let (err, doc) = parse_program(sample_program());
    assert!(err.is_none());
    let doc = doc.unwrap();
    let r = definition_query(&doc, pos(5, 18)).unwrap();
    assert_eq!(r, Some(range(0, 3, 0, 6)));
}

#[test]
fn definition_on_declaration_name_returns_its_own_range() {
    let (_, doc) = parse_program(sample_program());
    let doc = doc.unwrap();
    let r = definition_query(&doc, pos(0, 4)).unwrap();
    assert_eq!(r, Some(range(0, 3, 0, 6)));
}

#[test]
fn definition_on_jet_call_returns_none() {
    let (_, doc) = parse_program(sample_program());
    let doc = doc.unwrap();
    let r = definition_query(&doc, pos(1, 34)).unwrap();
    assert_eq!(r, None);
}

#[test]
fn references_from_call_site_list_usage_and_declaration() {
    let (_, doc) = parse_program(sample_program());
    let doc = doc.unwrap();
    let r = references_query(&doc, pos(5, 18)).unwrap().unwrap();
    assert_eq!(r, vec![range(5, 17, 5, 20), range(0, 3, 0, 6)]);
}

#[test]
fn references_from_declaration_name_list_usage_and_declaration() {
    let (_, doc) = parse_program(sample_program());
    let doc = doc.unwrap();
    let r = references_query(&doc, pos(0, 4)).unwrap().unwrap();
    assert_eq!(r, vec![range(5, 17, 5, 20), range(0, 3, 0, 6)]);
}

#[test]
fn references_of_a_jet_list_every_usage_site() {
    let (_, doc) = parse_program(sample_program());
    let doc = doc.unwrap();
    let r = references_query(&doc, pos(1, 34)).unwrap().unwrap();
    assert_eq!(r, vec![range(1, 32, 1, 43)]);
}

#[test]
fn hover_over_jet_call_renders_registry_signature() {
    let provider = CompletionProvider::new(registry_templates());
    let (_, doc) = parse_program(sample_program());
    let doc = doc.unwrap();
    let h = hover_query(&provider, &doc, pos(1, 34)).unwrap().unwrap();
    let args: Vec<String> = source_type(Elements::Add32)
        .iter()
        .map(|ty| ty.to_string())
        .collect();
    let expected = format!(
        "fn add_32({}) -> {}",
        args.join(", "),
        target_type(Elements::Add32)
    );
    assert!(h.contents.contains(&expected), "hover was: {}", h.contents);
    assert!(h.contents.starts_with("Jet function"));
    assert_eq!(h.range, range(1, 32, 1, 43));
}

#[test]
fn hover_over_custom_call_renders_declared_signature() {
    let provider = CompletionProvider::new(registry_templates());
    let (_, doc) = parse_program(sample_program());
    let doc = doc.unwrap();
    let h = hover_query(&provider, &doc, pos(5, 18)).unwrap().unwrap();
    assert!(h.contents.contains("fn add(a: u32, b: u32) -> u32"), "hover was: {}", h.contents);
}

#[test]
fn hover_away_from_calls_returns_none() {
    let provider = CompletionProvider::new(registry_templates());
    let (_, doc) = parse_program(sample_program());
    let doc = doc.unwrap();
    assert!(hover_query(&provider, &doc, pos(2, 1)).unwrap().is_none());
}

#[test]
fn completion_selects_exact_cast_for_known_annotation() {
    let provider = CompletionProvider::new(registry_templates());
    let (_, doc) = parse_program(sample_program());
    let doc = doc.unwrap();
    let entries = provider
        .process_completions("let x: u32 = <", &doc.functions)
        .unwrap();
    assert_eq!(entries.len(), 1);
    assert_eq!(entries[0].label, "u32 <- (u16, u16)");
    assert_eq!(entries[0].insert_text, "(u16, u16)>::into(${1:(u16, u16)})");
}

#[test]
fn completion_suppressed_on_trigger_characters() {
    let provider = CompletionProvider::new(registry_templates());
    let (_, doc) = parse_program(sample_program());
    let doc = doc.unwrap();
    assert!(provider.process_completions(":", &doc.functions).is_none());
    assert!(provider.process_completions("<", &doc.functions).is_none());
}

#[test]
fn completion_after_jet_namespace_lists_the_whole_catalog() {
    let provider = CompletionProvider::new(registry_templates());
    let (_, doc) = parse_program(sample_program());
    let doc = doc.unwrap();
    let entries = provider.process_completions("jet::", &doc.functions).unwrap();
    assert_eq!(entries.len(), Elements::ALL.len());
}

#[test]
fn default_completion_lists_functions_builtins_and_modules() {
    let provider = CompletionProvider::new(registry_templates());
    let (_, doc) = parse_program(sample_program());
    let doc = doc.unwrap();
    let entries = provider.process_completions("ad", &doc.functions).unwrap();
    assert_eq!(entries.len(), 2 + 11 + 3);
    assert_eq!(entries[0].label, "add");
    assert_eq!(entries[13].label, "jet");
    assert!(matches!(entries[13].kind, EntryKind::Module));
}

#[test]
fn completion_query_slices_the_cursor_line() {
    let provider = CompletionProvider::new(registry_templates());
    let mut slot = None;
    shl_lsp::document::update_document(&mut slot, sample_program());
    let edited = format!("{}\nfn broken() {{ let q: u16 = <", sample_program());
    shl_lsp::document::update_document(&mut slot, &edited);
    let doc = slot.unwrap();
    let entries = completion_query(&provider, &doc, pos(8, 28)).unwrap().unwrap();
    assert_eq!(entries.len(), 1);
    assert_eq!(entries[0].label, "u16 <- (u8, u8)");
    assert_eq!(entries[0].insert_text, "(u8, u8)>::into(${1:(u8, u8)})");
}

#[test]
fn completion_query_rejects_missing_line() {
    let provider = CompletionProvider::new(registry_templates());
    let (_, doc) = parse_program(sample_program());
    let doc = doc.unwrap();
    let err = completion_query(&provider, &doc, pos(99, 0)).unwrap_err();
    assert!(matches!(err, LspError::Internal(_)));
    assert_eq!(err.code(), 100);
}

#[test]
fn error_codes_are_stable() {
    assert_eq!(LspError::ConversionFailed(String::new()).code(), 1);
    assert_eq!(LspError::FunctionNotFound(String::new()).code(), 2);
    assert_eq!(LspError::CallNotFound(String::new()).code(), 3);
    assert_eq!(LspError::DocumentNotFound(String::new()).code(), 4);
    assert_eq!(LspError::IntegerConversionFailed.code(), 5);
    assert_eq!(
        LspError::Internal("x".to_string()).message(),
        "Internal error: x"
    );
    assert_eq!(
        LspError::ConversionFailed("y".to_string()).message(),
        "Conversion failed: y"
    );
}

#[test]
fn hover_of_undefined_function_reports_function_not_found() {
    let provider = CompletionProvider::new(registry_templates());
    let (err, doc) = parse_program("fn main() {\n    foo()\n}");
    assert!(err.is_some(), "analysis should fail on the undefined call");
    let doc = doc.expect("the text parses, so a document is built");
    let e = hover_query(&provider, &doc, pos(1, 5)).unwrap_err();
    assert!(matches!(e, LspError::FunctionNotFound(_)));
    assert_eq!(e.code(), 2);
    assert_eq!(e.message(), "Function not found: Function foo is not found");
}

#[test]
fn references_outside_every_function_report_call_not_found() {
    let (_, doc) = parse_program(sample_program());
    let doc = doc.unwrap();
    let e = references_query(&doc, pos(90, 0)).unwrap_err();
    assert!(matches!(e, LspError::CallNotFound(_)));
    assert_eq!(e.code(), 3);
}

#[test]
fn hover_on_declaration_name_renders_the_function_card() {
    let provider = CompletionProvider::new(registry_templates());
    let (_, doc) = parse_program(sample_program());
    let doc = doc.unwrap();
    let h = hover_query(&provider, &doc, pos(0, 4)).unwrap().unwrap();
    assert!(h.contents.contains("fn add(a: u32, b: u32) -> u32"), "hover was: {}", h.contents);
    assert_eq!(h.range, range(0, 3, 0, 6));
}
