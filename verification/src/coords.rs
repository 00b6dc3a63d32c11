//! Coordinate mapping between structural and editor positions.
//!
//! Structural positions are the compiler's: 1-based line and column.
//! Editor positions are the protocol's: 0-based line and character.
//! The two spaces are never mixed; every crossing goes through the
//! conversions in this module.

use vstd::prelude::*;

use crate::errors::LspError;

verus! {

/// A structural position: 1-based line and column.
#[derive(Clone, Copy, Debug, PartialEq, Eq, Structural)]
pub struct Position {
    pub line: usize,
    pub col: usize,
}

/// A structural span: start and end position.
#[derive(Clone, Copy, Debug, PartialEq, Eq, Structural)]
pub struct Span {
    pub start: Position,
    pub end: Position,
}

/// An editor position: 0-based line and character.
#[derive(Clone, Copy, Debug, PartialEq, Eq, Structural)]
pub struct EditorPosition {
    pub line: u32,
    pub character: u32,
}

/// An editor range: start and end editor position.
#[derive(Clone, Copy, Debug, PartialEq, Eq, Structural)]
pub struct EditorRange {
    pub start: EditorPosition,
    pub end: EditorPosition,
}

/// A structural position is well-formed when line and column are 1-based.
pub open spec fn pos_wf(p: Position) -> bool {
    p.line >= 1 && p.col >= 1
}

/// Lexicographic order on structural positions: by line, then by column.
pub open spec fn spec_position_le(a: Position, b: Position) -> bool {
    a.line < b.line || (a.line == b.line && a.col <= b.col)
}

/// Lexicographic order on editor positions: by line, then by character.
pub open spec fn spec_editor_le(a: EditorPosition, b: EditorPosition) -> bool {
    a.line < b.line || (a.line == b.line && a.character <= b.character)
}

/// Non-strict containment: `outer` contains `inner` when `outer` starts at
/// or before `inner`'s start and ends at or after `inner`'s end.
pub open spec fn spec_span_contains(outer: Span, inner: Span) -> bool {
    spec_position_le(outer.start, inner.start) && spec_position_le(inner.end, outer.end)
}

fn position_le(a: &Position, b: &Position) -> (r: bool)
    ensures
        r == spec_position_le(*a, *b),
{
    (a.line < b.line) || (a.line == b.line && a.col <= b.col)
}

fn position_ge(a: &Position, b: &Position) -> (r: bool)
    ensures
        r == spec_position_le(*b, *a),
{
    (a.line > b.line) || (a.line == b.line && a.col >= b.col)
}

/// Whether span `a` contains span `b`, boundaries included.
pub fn span_contains(a: &Span, b: &Span) -> (r: bool)
    ensures
        r == spec_span_contains(*a, *b),
{
    position_le(&a.start, &b.start) && position_ge(&a.end, &b.end)
}

/// Compare two editor positions, by line then character.
pub fn editor_position_le(a: &EditorPosition, b: &EditorPosition) -> (r: bool)
    ensures
        r == spec_editor_le(*a, *b),
{
    a.line < b.line || (a.line == b.line && a.character <= b.character)
}

/// Whether a span can be converted to an editor range: well-formed
/// 1-based coordinates whose values fit the editor's integer width.
pub open spec fn span_convertible(s: Span) -> bool {
    pos_wf(s.start) && pos_wf(s.end) && span_fits(s)
}

/// Whether every coordinate of the span fits the editor's integer width.
pub open spec fn span_fits(s: Span) -> bool {
    s.start.line <= u32::MAX && s.start.col <= u32::MAX && s.end.line <= u32::MAX && s.end.col
        <= u32::MAX
}

/// The editor range of a structural span: one subtracted from every
/// coordinate.
pub open spec fn spec_editor_range(s: Span) -> EditorRange {
    EditorRange {
        start: EditorPosition {
            line: (s.start.line - 1) as u32,
            character: (s.start.col - 1) as u32,
        },
        end: EditorPosition { line: (s.end.line - 1) as u32, character: (s.end.col - 1) as u32 },
    }
}

/// Convert a structural span to a pair of editor positions by subtracting
/// one from every coordinate.  Fails when a coordinate does not fit the
/// editor's integer width.
pub fn span_to_positions(span: &Span) -> (r: Result<(EditorPosition, EditorPosition), LspError>)
    requires
        pos_wf(span.start) && pos_wf(span.end),
    ensures
        span_fits(*span) <==> r is Ok,
        r matches Ok((s, e)) ==> s == spec_editor_range(*span).start && e == spec_editor_range(
            *span,
        ).end,
        r is Err ==> (r matches Err(err) && err is IntegerConversionFailed),
{
    if span.start.line > u32::MAX as usize || span.start.col > u32::MAX as usize
        || span.end.line > u32::MAX as usize || span.end.col > u32::MAX as usize {
        return Err(LspError::IntegerConversionFailed);
    }
    let start_line = span.start.line as u32;
    let start_col = span.start.col as u32;
    let end_line = span.end.line as u32;
    let end_col = span.end.col as u32;
    Ok(
        (
            EditorPosition { line: start_line - 1, character: start_col - 1 },
            EditorPosition { line: end_line - 1, character: end_col - 1 },
        ),
    )
}

/// Convert an editor position to the zero-width structural span at that
/// point, by adding one to both coordinates.  Fails only when a 1-based
/// coordinate does not fit the machine's word width.
pub fn position_to_span(position: EditorPosition) -> (r: Result<Span, LspError>)
    ensures
        (position.line + 1 <= usize::MAX && position.character + 1 <= usize::MAX) <==> r is Ok,
        r matches Ok(s) ==> s == spec_point_span(position),
        r is Err ==> (r matches Err(err) && err is IntegerConversionFailed),
{
    if position.line as u64 >= usize::MAX as u64 || position.character as u64 >= usize::MAX as u64 {
        return Err(LspError::IntegerConversionFailed);
    }
    let line: usize = position.line as usize + 1;
    let col: usize = position.character as usize + 1;
    let point = Position { line, col };
    Ok(Span { start: point, end: point })
}

/// The zero-width structural span denoted by an editor position.
pub open spec fn spec_point_span(position: EditorPosition) -> Span {
    let p = Position {
        line: (position.line + 1) as usize,
        col: (position.character + 1) as usize,
    };
    Span { start: p, end: p }
}

/// Containment is reflexive: every span contains itself, so a span also
/// contains its own boundary points.
pub proof fn lemma_contains_reflexive(s: Span)
    ensures
        spec_span_contains(s, s),
{
}

/// Containment fails whenever the inner span starts before the outer one
/// or ends after it.
pub proof fn lemma_contains_bounds(outer: Span, inner: Span)
    ensures
        !spec_position_le(outer.start, inner.start) ==> !spec_span_contains(outer, inner),
        !spec_position_le(inner.end, outer.end) ==> !spec_span_contains(outer, inner),
{
}

/// Round trip of a structural point through the editor coordinate space:
/// taking the zero-width span at a point, converting it to editor
/// coordinates, and lifting the editor start position back reproduces the
/// zero-width span at the original point.
pub proof fn lemma_coordinate_round_trip(p: Position)
    requires
        1 <= p.line <= u32::MAX,
        1 <= p.col <= u32::MAX,
    ensures
        ({
            let span = Span { start: p, end: p };
            spec_point_span(spec_editor_range(span).start) == span
        }),
{
}

} // verus!
