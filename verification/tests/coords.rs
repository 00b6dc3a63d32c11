use shl_lsp::coords::{
    position_to_span, span_contains, span_to_positions, EditorPosition, Position, Span,
};

#[test]
fn point_span_adds_one_to_both_coordinates() {
    let span = position_to_span(EditorPosition { line: 4, character: 7 }).unwrap();
    assert_eq!(span.start, Position { line: 5, col: 8 });
    assert_eq!(span.end, Position { line: 5, col: 8 });
}

#[test]
fn editor_positions_subtract_one_from_both_coordinates() {
    let span = Span {
        start: Position { line: 5, col: 8 },
        end: Position { line: 6, col: 2 },
    };
    let (start, end) = span_to_positions(&span).unwrap();
    assert_eq!(start, EditorPosition { line: 4, character: 7 });
    assert_eq!(end, EditorPosition { line: 5, character: 1 });
}

#[test]
fn coordinate_round_trip_reproduces_the_point() {
    let original = EditorPosition { line: 12, character: 34 };
    let span = position_to_span(original).unwrap();
    let (start, end) = span_to_positions(&span).unwrap();
    assert_eq!(start, original);
    assert_eq!(end, original);
}

#[test]
fn conversion_rejects_coordinates_beyond_editor_width() {
    let span = Span {
        start: Position { line: u32::MAX as usize + 1, col: 1 },
        end: Position { line: u32::MAX as usize + 1, col: 2 },
    };
    assert!(matches!(
        span_to_positions(&span),
        Err(shl_lsp::errors::LspError::IntegerConversionFailed)
    ));
}

#[test]
fn containment_is_reflexive() {
    let span = Span {
        start: Position { line: 2, col: 3 },
        end: Position { line: 4, col: 1 },
    };
    assert!(span_contains(&span, &span));
}

#[test]
fn containment_rejects_earlier_start_and_later_end() {
    let outer = Span {
        start: Position { line: 2, col: 3 },
        end: Position { line: 4, col: 1 },
    };
    let starts_before = Span {
        start: Position { line: 2, col: 2 },
        end: Position { line: 3, col: 1 },
    };
    let ends_after = Span {
        start: Position { line: 3, col: 1 },
        end: Position { line: 4, col: 2 },
    };
    assert!(!span_contains(&outer, &starts_before));
    assert!(!span_contains(&outer, &ends_after));
    assert!(span_contains(
        &outer,
        &Span { start: Position { line: 2, col: 3 }, end: Position { line: 3, col: 9 } },
    ));
}
