use shl_lsp::tokens::{parse, CompletionType};

fn expect_assignment(input: &str, ty: &str) {
    match parse(input) {
        Some(CompletionType::Assignment(t)) => assert_eq!(t, ty),
        other => panic!("expected an assignment context, got {:?}", other),
    }
}

#[test]
fn test_parse_assignment() {
    expect_assignment("let var: u32 = <", "u32");
}

#[test]
fn test_parse_assignment_nested_tuples() {
    expect_assignment("let (a,b):  (u32, (u32, u32)) = <", "(u32, (u32, u32))");
}

#[test]
fn test_parse_assignment_nested_arrays() {
    expect_assignment("let (a,b): [(u32, u32); 12] = <", "[(u32, u32); 12]");
}

#[test]
fn test_parse_jet() {
    assert!(matches!(parse("other keywords jet::"), Some(CompletionType::Jet)));
}

#[test]
fn test_parse_jet_with_identifier() {
    assert!(matches!(parse("jet::add_32"), Some(CompletionType::Jet)));
}

#[test]
fn test_parse_closing_type() {
    assert!(matches!(parse(">::"), Some(CompletionType::ClosingType)));
}

#[test]
fn test_parse_closing_type_with_identifier() {
    assert!(matches!(parse(">::method"), Some(CompletionType::ClosingType)));
}

#[test]
fn test_parse_non_completion_symbol_colon() {
    assert!(matches!(parse(":"), Some(CompletionType::NonCompletionSymbol)));
}

#[test]
fn test_parse_non_completion_symbol_angle() {
    assert!(matches!(parse("<"), Some(CompletionType::NonCompletionSymbol)));
}

#[test]
fn test_parse_other_symbol() {
    match parse("some other keywords") {
        Some(CompletionType::Identifier(t)) => assert_eq!(t, "keywords"),
        other => panic!("expected an identifier context, got {:?}", other),
    }
}

#[test]
fn test_parse_mixed_sequence() {
    assert!(matches!(parse("let x: T = < jet::"), Some(CompletionType::Jet)));
}

#[test]
fn test_parse_empty() {
    assert!(parse("").is_none());
}

#[test]
fn classifier_assignment_with_partial_identifier() {
    expect_assignment("let var: u16 = <u", "u16");
}

#[test]
fn classifier_symbol_alone() {
    assert!(matches!(parse("+"), Some(CompletionType::OtherSymbol)));
}

#[test]
fn classifier_whitespace_only() {
    assert!(parse("   \t ").is_none());
}
