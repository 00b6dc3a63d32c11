//! The external grammar and analyzer.
//!
//! Parsing text into a structural program and checking its semantics are
//! the compiler's work, consumed here through a narrow trusted surface.
//! Because the compiler is deterministic, its outcomes are named: whether
//! a text parses and analyzes, the first reported error's span and
//! rendered message, and the function declarations of the parsed
//! program, each a function of the text alone.  Each wrapper makes one
//! call into the compiler and converts what comes back into the
//! library's plain values; everything decided from those values is
//! verified elsewhere.

use vstd::prelude::*;

use crate::builtins::CallKind;
use miniscript::iter::TreeLike;
use simplicityhl::error::RichError;
use simplicityhl::error::WithFile;
use simplicityhl::parse::CallName;
use simplicityhl::parse::ParseFromStr;
use simplicityhl::parse::{Call, Function, Program};
use crate::coords::{Position, Span};
use crate::funcs::{CallInfo, FunctionDecl};

verus! {

#[verifier::external_type_specification]
#[verifier::external_body]
pub struct ExProgram(Program);

#[verifier::external_type_specification]
#[verifier::external_body]
pub struct ExFunction(Function);

#[verifier::external_type_specification]
#[verifier::external_body]
pub struct ExCall(Call);

#[verifier::external_type_specification]
#[verifier::external_body]
pub struct ExRichError(RichError);

/// Whether the grammar accepts the text.  Parsing is deterministic, so
/// this depends on the text alone.
pub uninterp spec fn spec_parses(text: Seq<char>) -> bool;

/// Where the first grammar error of a rejected text points.
pub uninterp spec fn spec_parse_err_span(text: Seq<char>) -> Span;

/// The rendered description of the first grammar error of a rejected
/// text.
pub uninterp spec fn spec_parse_err_message(text: Seq<char>) -> Seq<char>;

/// Whether the analyzer accepts the program parsed from the text;
/// meaningful for texts the grammar accepts.
pub uninterp spec fn spec_analyzes(text: Seq<char>) -> bool;

/// Where the first analysis error of the text's program points.
pub uninterp spec fn spec_analysis_err_span(text: Seq<char>) -> Span;

/// The rendered description of the first analysis error of the text's
/// program.
pub uninterp spec fn spec_analysis_err_message(text: Seq<char>) -> Seq<char>;

/// The program is what the grammar parsed out of the text.
pub uninterp spec fn is_parse_of(p: Program, text: Seq<char>) -> bool;

/// The function declarations a program holds, in source order, as the
/// library's plain values.
pub uninterp spec fn program_decls(p: Program) -> Seq<FunctionDecl>;

/// The function declarations of the text's program, in source order;
/// meaningful for texts the grammar accepts.
pub uninterp spec fn spec_decls_of(text: Seq<char>) -> Seq<FunctionDecl>;

/// The plain-values content of one parsed declaration: its name,
/// rendered parameter and return types, span, and the body's calls in
/// pre-order.
pub uninterp spec fn decl_of(f: Function) -> FunctionDecl;

/// The plain-values content of one call expression: its name with
/// rendered payloads, and its span.
pub uninterp spec fn call_of(c: Call) -> CallInfo;

/// Where a positioned compiler error points.
pub uninterp spec fn rich_span_of(e: RichError) -> Span;

/// A positioned compiler error's rendered description, without the
/// source excerpt.
pub uninterp spec fn rich_message_of(e: RichError) -> Seq<char>;

/// Relies on `simplicityhl::parse::Program::parse_from_str`: parse the
/// text through the grammar, yielding the structural program or the
/// first positioned grammar error.
#[verifier::external_body]
pub fn parse_text(text: &str) -> (r: Result<Program, RichError>)
    ensures
        match r {
            Ok(p) => {
                &&& spec_parses(text@)
                &&& is_parse_of(p, text@)
                &&& program_decls(p) == spec_decls_of(text@)
            },
            Err(e) => {
                &&& !spec_parses(text@)
                &&& rich_span_of(e) == spec_parse_err_span(text@)
                &&& rich_message_of(e) == spec_parse_err_message(text@)
            },
        },
{
    Program::parse_from_str(text)
}

/// Relies on `simplicityhl::ast::Program::analyze` and
/// `simplicityhl::error::WithFile::with_file`: run the semantic analyzer
/// over a parsed program and hand back the first positioned error, with
/// the source attached, or nothing on success.  The outcome is a
/// function of the program, hence of the text it was parsed from.
#[verifier::external_body]
pub fn analyze_program(p: &Program, text: &str) -> (r: Option<RichError>)
    ensures
        is_parse_of(*p, text@) ==> match r {
            None => spec_analyzes(text@),
            Some(e) => {
                &&& !spec_analyzes(text@)
                &&& rich_span_of(e) == spec_analysis_err_span(text@)
                &&& rich_message_of(e) == spec_analysis_err_message(text@)
            },
        },
{
    simplicityhl::ast::Program::analyze(p).with_file(text).err()
}

/// Relies on `simplicityhl::parse::Program::items`: the function items
/// of the program, in source order; other item kinds are left out.
#[verifier::external_body]
pub fn program_functions(p: &Program) -> (r: Vec<Function>)
    ensures
        r@.len() == program_decls(*p).len(),
        forall|i: int| 0 <= i < r@.len() ==> decl_of(#[trigger] r@[i]) == program_decls(*p)[i],
{
    p.items().iter().filter_map(
        |item| match item {
            simplicityhl::parse::Item::Function(f) => Some(f.clone()),
            _ => None,
        },
    ).collect()
}

/// Relies on `simplicityhl::parse::Function::name`: the function's name.
#[verifier::external_body]
pub fn function_name(f: &Function) -> (r: String)
    ensures
        r@ == decl_of(*f).name@,
{
    f.name().to_string()
}

/// Relies on `simplicityhl::parse::Function::params`: the parameters,
/// each rendered as the compiler prints it (`name: type`).
#[verifier::external_body]
pub fn function_params(f: &Function) -> (r: Vec<String>)
    ensures
        r@.len() == decl_of(*f).params@.len(),
        forall|i: int| 0 <= i < r@.len() ==> (#[trigger] r@[i])@ == decl_of(*f).params@[i]@,
{
    f.params().iter().map(|item| format!("{item}")).collect()
}

/// Relies on `simplicityhl::parse::Function::ret`: the rendered return
/// type, if one was declared.
#[verifier::external_body]
pub fn function_ret(f: &Function) -> (r: Option<String>)
    ensures
        match (r, decl_of(*f).ret) {
            (Some(x), Some(y)) => x@ == y@,
            (None, None) => true,
            _ => false,
        },
{
    f.ret().map(|ret| format!("{ret}"))
}

/// Relies on `simplicityhl::parse::Function::span`: the declaration's
/// span; its line and column are 1-based non-zero values.
#[verifier::external_body]
pub fn function_span(f: &Function) -> (r: Span)
    ensures
        r == decl_of(*f).span,
        r.start.line >= 1 && r.start.col >= 1 && r.end.line >= 1 && r.end.col >= 1,
{
    let s = f.span();
    Span {
        start: Position { line: s.start.line.get(), col: s.start.col.get() },
        end: Position { line: s.end.line.get(), col: s.end.col.get() },
    }
}

/// Relies on `miniscript::iter::TreeLike::pre_order_iter` over the
/// compiler's expression tree: every call expression of the function's
/// body, in pre-order.
#[verifier::external_body]
pub fn function_calls(f: &Function) -> (r: Vec<Call>)
    ensures
        r@.len() == decl_of(*f).calls@.len(),
        forall|i: int| 0 <= i < r@.len() ==> call_of(#[trigger] r@[i]) == decl_of(*f).calls@[i],
{
    simplicityhl::parse::ExprTree::Expression(f.body()).pre_order_iter().filter_map(
        |expr| match expr {
            simplicityhl::parse::ExprTree::Call(call) => Some(call.clone()),
            _ => None,
        },
    ).collect()
}

/// Relies on `simplicityhl::parse::Call::span`: the call's span; its
/// line and column are 1-based non-zero values.
#[verifier::external_body]
pub fn call_span(c: &Call) -> (r: Span)
    ensures
        r == call_of(*c).span,
        r.start.line >= 1 && r.start.col >= 1 && r.end.line >= 1 && r.end.col >= 1,
{
    let s = c.span();
    Span {
        start: Position { line: s.start.line.get(), col: s.start.col.get() },
        end: Position { line: s.end.line.get(), col: s.end.col.get() },
    }
}

/// The call-name variants answered by `call_kind_basic`.
pub open spec fn is_basic_kind(k: CallKind) -> bool {
    k is Jet || k is Custom || k is Unwrap || k is Assert || k is Panic || k is Debug
}

/// The call-name variants answered by `call_kind_typed`.
pub open spec fn is_typed_kind(k: CallKind) -> bool {
    k is UnwrapLeft || k is UnwrapRight || k is IsNone || k is TypeCast
}

/// The call-name variants answered by `call_kind_loop`.
pub open spec fn is_loop_kind(k: CallKind) -> bool {
    k is Fold || k is ArrayFold || k is ForWhile
}

/// Relies on `simplicityhl::parse::Call::name`: the call's name when
/// it is a primitive operation, a user-defined function, or a
/// payload-free built-in; other names are answered elsewhere.
#[verifier::external_body]
fn call_kind_basic(c: &Call) -> (r: Option<CallKind>)
    ensures
        match r {
            Some(k) => crate::builtins::spec_call_kind_eq(k, call_of(*c).name),
            None => !is_basic_kind(call_of(*c).name),
        },
{
    match c.name() {
        CallName::Jet(j) => Some(CallKind::Jet(format!("{j}"))),
        CallName::Custom(name) => Some(CallKind::Custom(format!("{name}"))),
        CallName::Unwrap => Some(CallKind::Unwrap),
        CallName::Assert => Some(CallKind::Assert),
        CallName::Panic => Some(CallKind::Panic),
        CallName::Debug => Some(CallKind::Debug),
        _ => None,
    }
}

/// Relies on `simplicityhl::parse::Call::name`: the call's name when
/// it carries one type annotation; other names are answered elsewhere.
#[verifier::external_body]
fn call_kind_typed(c: &Call) -> (r: Option<CallKind>)
    ensures
        match r {
            Some(k) => crate::builtins::spec_call_kind_eq(k, call_of(*c).name),
            None => !is_typed_kind(call_of(*c).name),
        },
{
    match c.name() {
        CallName::UnwrapLeft(ty) => Some(CallKind::UnwrapLeft(format!("{ty}"))),
        CallName::UnwrapRight(ty) => Some(CallKind::UnwrapRight(format!("{ty}"))),
        CallName::IsNone(ty) => Some(CallKind::IsNone(format!("{ty}"))),
        CallName::TypeCast(ty) => Some(CallKind::TypeCast(format!("{ty}"))),
        _ => None,
    }
}

/// Relies on `simplicityhl::parse::Call::name`: the call's name when
/// it is a fold or a bounded loop; other names are answered elsewhere.
#[verifier::external_body]
fn call_kind_loop(c: &Call) -> (r: Option<CallKind>)
    ensures
        match r {
            Some(k) => crate::builtins::spec_call_kind_eq(k, call_of(*c).name),
            None => !is_loop_kind(call_of(*c).name),
        },
{
    match c.name() {
        CallName::Fold(f, n) => Some(CallKind::Fold(format!("{f}"), format!("{n}"))),
        CallName::ArrayFold(f, n) => Some(CallKind::ArrayFold(format!("{f}"), format!("{n}"))),
        CallName::ForWhile(f) => Some(CallKind::ForWhile(format!("{f}"))),
        _ => None,
    }
}

/// The call's name, with each payload rendered as the compiler prints
/// it.  The three groups above cover the closed variant set, so the
/// final fallback is provably unreachable.
pub fn call_kind(c: &Call) -> (r: CallKind)
    ensures
        crate::builtins::spec_call_kind_eq(r, call_of(*c).name),
{
    match call_kind_basic(c) {
        Some(k) => k,
        None => match call_kind_typed(c) {
            Some(k) => k,
            None => match call_kind_loop(c) {
                Some(k) => k,
                None => {
                    proof {
                        assert(false);
                    }
                    CallKind::Unwrap
                },
            },
        },
    }
}

/// Relies on `simplicityhl::error::RichError::span`: where the error
/// points; its line and column are 1-based non-zero values.
#[verifier::external_body]
pub fn rich_error_span(e: &RichError) -> (r: Span)
    ensures
        r == rich_span_of(*e),
        r.start.line >= 1 && r.start.col >= 1 && r.end.line >= 1 && r.end.col >= 1,
{
    let s = e.span();
    Span {
        start: Position { line: s.start.line.get(), col: s.start.col.get() },
        end: Position { line: s.end.line.get(), col: s.end.col.get() },
    }
}

/// Relies on `simplicityhl::error::RichError::error` and its rendering:
/// the error's description, without the source excerpt.
#[verifier::external_body]
pub fn rich_error_message(e: &RichError) -> (r: String)
    ensures
        r@ == rich_message_of(*e),
{
    e.error().to_string()
}

/// A positioned compiler error, as plain values.
#[derive(Debug)]
pub struct RichErrorInfo {
    /// Where the error points.
    pub span: Span,
    /// The error's rendered description.
    pub message: String,
}

/// Convert a compiler error into plain values.
pub fn rich_error_info(e: &RichError) -> (r: RichErrorInfo)
    ensures
        r.span == rich_span_of(*e),
        r.message@ == rich_message_of(*e),
        r.span.start.line >= 1 && r.span.start.col >= 1,
        r.span.end.line >= 1 && r.span.end.col >= 1,
{
    RichErrorInfo { span: rich_error_span(e), message: rich_error_message(e) }
}

/// Convert a parsed function into the library's model: name, rendered
/// parameter and return types, span, and the body's calls in pre-order.
pub fn convert_function(f: &Function) -> (r: FunctionDecl)
    ensures
        crate::funcs::decl_like(r, decl_of(*f)),
        r.span == decl_of(*f).span,
        r.span.start.line >= 1 && r.span.start.col >= 1,
        r.span.end.line >= 1 && r.span.end.col >= 1,
{
    let calls_raw = function_calls(f);
    let mut calls: Vec<CallInfo> = Vec::new();
    let mut i: usize = 0;
    while i < calls_raw.len()
        invariant
            i <= calls_raw@.len(),
            calls_raw@.len() == decl_of(*f).calls@.len(),
            forall|j: int|
                0 <= j < calls_raw@.len() ==> call_of(#[trigger] calls_raw@[j]) == decl_of(
                    *f,
                ).calls@[j],
            calls@.len() == i,
            forall|j: int|
                0 <= j < i ==> crate::funcs::call_like(#[trigger] calls@[j], decl_of(*f).calls@[j]),
        decreases calls_raw@.len() - i,
    {
        let c = &calls_raw[i];
        calls.push(CallInfo { name: call_kind(c), span: call_span(c) });
        i = i + 1;
    }
    FunctionDecl {
        name: function_name(f),
        params: function_params(f),
        ret: function_ret(f),
        span: function_span(f),
        calls,
    }
}

} // verus!
