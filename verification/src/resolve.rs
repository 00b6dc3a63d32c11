//! Reference resolution over a document's function index.
//!
//! Given a point or a call name, these functions walk the indexed
//! function bodies to locate the enclosing function, the call under the
//! point, and every usage site of a name.  Ties between nested calls are
//! broken by taking the last matching call in pre-order, the innermost
//! one for ordinary nesting.

use vstd::prelude::*;
use vstd::string::{StrSliceExecFns, StringExecFns};

use crate::builtins::{render_call_name, spec_call_kind_eq, spec_call_name, CallKind};
use crate::coords::{
    span_contains, span_convertible, span_to_positions, spec_editor_range, spec_span_contains,
    EditorPosition, EditorRange, Position, Span,
};
use crate::errors::LspError;
use crate::funcs::{call_like, clone_call, CallInfo, FunctionDecl};

verus! {

/// Whether a call's name span can be computed without overflow.
pub open spec fn name_span_ok(c: CallInfo) -> bool {
    c.span.start.col + spec_call_name(c.name).len() <= usize::MAX
}

/// The span of just the callee token: it starts where the call starts
/// and runs for the length of the rendered call name.
pub open spec fn spec_name_span(c: CallInfo) -> Span {
    Span {
        start: c.span.start,
        end: Position {
            line: c.span.start.line,
            col: (c.span.start.col + spec_call_name(c.name).len()) as usize,
        },
    }
}

/// The span of the callee token of a call.
pub fn get_call_span(call: &CallInfo) -> (r: Result<Span, LspError>)
    ensures
        name_span_ok(*call) <==> r is Ok,
        r matches Ok(s) ==> s == spec_name_span(*call),
        r is Err ==> (r matches Err(e) && e is IntegerConversionFailed),
{
    let name = render_call_name(&call.name);
    let len = name.as_str().unicode_len();
    if call.span.start.col <= usize::MAX - len {
        Ok(
            Span {
                start: call.span.start,
                end: Position { line: call.span.start.line, col: call.span.start.col + len },
            },
        )
    } else {
        Err(LspError::IntegerConversionFailed)
    }
}

/// The last call of `calls` (in pre-order) whose name span contains
/// `t`, as an index.
pub open spec fn spec_related_in(calls: Seq<CallInfo>, t: Span) -> Option<int>
    decreases calls.len(),
{
    if calls.len() == 0 {
        None
    } else {
        let last = calls.last();
        if name_span_ok(last) && spec_span_contains(spec_name_span(last), t) {
            Some(calls.len() - 1)
        } else {
            spec_related_in(calls.drop_last(), t)
        }
    }
}

/// The first declaration at or after `i` whose span contains `t`.
pub open spec fn spec_enclosing_from(fns: Seq<FunctionDecl>, t: Span, i: int) -> Option<int>
    decreases fns.len() - i,
{
    if i < 0 || i >= fns.len() {
        None
    } else if spec_span_contains(fns[i].span, t) {
        Some(i)
    } else {
        spec_enclosing_from(fns, t, i + 1)
    }
}

/// The first declaration whose span contains `t`.
pub open spec fn spec_first_enclosing(fns: Seq<FunctionDecl>, t: Span) -> Option<int> {
    spec_enclosing_from(fns, t, 0)
}

/// A found enclosing declaration lies within the list and its span
/// contains the point.
pub proof fn lemma_enclosing_bounds(fns: Seq<FunctionDecl>, t: Span, i: int)
    ensures
        spec_enclosing_from(fns, t, i) matches Some(fi) ==> i <= fi < fns.len()
            && spec_span_contains(fns[fi].span, t),
    decreases fns.len() - i,
{
    if 0 <= i < fns.len() && !spec_span_contains(fns[i].span, t) {
        lemma_enclosing_bounds(fns, t, i + 1);
    }
}

/// A found related call lies within the list.
pub proof fn lemma_related_in_bounds(calls: Seq<CallInfo>, t: Span)
    ensures
        spec_related_in(calls, t) matches Some(ci) ==> 0 <= ci < calls.len(),
    decreases calls.len(),
{
    if calls.len() > 0 {
        let last = calls.last();
        if !(name_span_ok(last) && spec_span_contains(spec_name_span(last), t)) {
            lemma_related_in_bounds(calls.drop_last(), t);
        }
    }
}

/// The call under the point: within the first function whose span
/// contains the point, the last call in pre-order whose name span
/// contains it.  Fails when no function's span contains the point.
pub fn find_related_call(functions: &Vec<FunctionDecl>, token_span: Span) -> (r: Result<
    Option<CallInfo>,
    LspError,
>)
    ensures
        r matches Err(e) ==> e is CallNotFound && spec_first_enclosing(functions@, token_span)
            is None,
        r matches Ok(opt) ==> (spec_first_enclosing(functions@, token_span) matches Some(fi)
            && match opt {
            None => spec_related_in(functions@[fi].calls@, token_span) is None,
            Some(c) => spec_related_in(functions@[fi].calls@, token_span) matches Some(ci)
                && call_like(c, functions@[fi].calls@[ci]),
        }),
{
    let mut fi: usize = 0;
    while fi < functions.len()
        invariant
            fi <= functions@.len(),
            spec_first_enclosing(functions@, token_span) == spec_enclosing_from(
                functions@,
                token_span,
                fi as int,
            ),
        decreases functions@.len() - fi,
    {
        if span_contains(&functions[fi].span, &token_span) {
            let calls = &functions[fi].calls;
            let ghost cs = calls@;
            let mut i: usize = calls.len();
            proof {
                assert(cs.take(i as int) =~= cs);
            }
            while i > 0
                invariant
                    i <= cs.len(),
                    cs == calls@,
                    cs == functions@[fi as int].calls@,
                    fi < functions@.len(),
                    spec_span_contains(functions@[fi as int].span, token_span),
                    spec_first_enclosing(functions@, token_span) == Some(fi as int),
                    spec_related_in(cs, token_span) == spec_related_in(
                        cs.take(i as int),
                        token_span,
                    ),
                decreases i,
            {
                i = i - 1;
                let c = &calls[i];
                match get_call_span(c) {
                    Ok(ns) => {
                        if span_contains(&ns, &token_span) {
                            proof {
                                assert(cs.take(i as int + 1).last() == cs[i as int]);
                            }
                            return Ok(Some(clone_call(c)));
                        }
                    },
                    Err(_) => {},
                }
                proof {
                    assert(cs.take(i as int + 1).last() == cs[i as int]);
                    assert(cs.take(i as int + 1).drop_last() =~= cs.take(i as int));
                }
            }
            return Ok(None);
        }
        fi = fi + 1;
    }
    Err(LspError::CallNotFound(String::from_str("Span of the call is not inside function.")))
}

/// The name spans of the calls of one function that carry `name`, in
/// pre-order.
pub open spec fn spec_fn_refs(calls: Seq<CallInfo>, name: CallKind) -> Seq<Span>
    decreases calls.len(),
{
    if calls.len() == 0 {
        Seq::empty()
    } else {
        let last = calls.last();
        spec_fn_refs(calls.drop_last(), name) + (if name_span_ok(last) && spec_call_kind_eq(
            last.name,
            name,
        ) {
            seq![spec_name_span(last)]
        } else {
            Seq::empty()
        })
    }
}

/// The name spans of every call carrying `name`, function by function in
/// index order, pre-order within each function.
pub open spec fn spec_all_refs(fs: Seq<FunctionDecl>, name: CallKind) -> Seq<Span>
    decreases fs.len(),
{
    if fs.len() == 0 {
        Seq::empty()
    } else {
        spec_all_refs(fs.drop_last(), name) + spec_fn_refs(fs.last().calls@, name)
    }
}

/// Every usage site of a call name, as editor ranges.  Fails when some
/// usage's coordinates do not fit the editor's integer width.
pub fn find_all_references(functions: &Vec<FunctionDecl>, call_name: &CallKind) -> (r: Result<
    Vec<EditorRange>,
    LspError,
>)
    ensures
        r matches Ok(v) ==> {
            &&& v@.len() == spec_all_refs(functions@, *call_name).len()
            &&& forall|i: int|
                0 <= i < v@.len() ==> span_convertible(
                    #[trigger] spec_all_refs(functions@, *call_name)[i],
                ) && v@[i] == spec_editor_range(spec_all_refs(functions@, *call_name)[i])
        },
        r matches Err(e) ==> {
            &&& e is IntegerConversionFailed
            &&& exists|i: int|
                0 <= i < spec_all_refs(functions@, *call_name).len() && !span_convertible(
                    #[trigger] spec_all_refs(functions@, *call_name)[i],
                )
        },
{
    let ghost fs = functions@;
    let ghost name = *call_name;
    let mut spans: Vec<Span> = Vec::new();
    let mut fi: usize = 0;
    while fi < functions.len()
        invariant
            fi <= fs.len(),
            fs == functions@,
            name == *call_name,
            spans@ == spec_all_refs(fs.take(fi as int), name),
        decreases fs.len() - fi,
    {
        let calls = &functions[fi].calls;
        let ghost cs = calls@;
        let mut ci: usize = 0;
        while ci < calls.len()
            invariant
                ci <= cs.len(),
                cs == calls@,
                cs == functions@[fi as int].calls@,
                fi < fs.len(),
                fs == functions@,
                name == *call_name,
                spans@ == spec_all_refs(fs.take(fi as int), name) + spec_fn_refs(
                    cs.take(ci as int),
                    name,
                ),
            decreases cs.len() - ci,
        {
            let c = &calls[ci];
            match get_call_span(c) {
                Ok(ns) => {
                    if c.name.eq(call_name) {
                        spans.push(ns);
                    }
                },
                Err(_) => {},
            }
            proof {
                assert(cs.take(ci as int + 1).last() == cs[ci as int]);
                assert(cs.take(ci as int + 1).drop_last() =~= cs.take(ci as int));
                assert(spans@ =~= spec_all_refs(fs.take(fi as int), name) + spec_fn_refs(
                    cs.take(ci as int + 1),
                    name,
                ));
            }
            ci = ci + 1;
        }
        proof {
            assert(cs.take(cs.len() as int) =~= cs);
            assert(fs.take(fi as int + 1).last() == fs[fi as int]);
            assert(fs.take(fi as int + 1).drop_last() =~= fs.take(fi as int));
        }
        fi = fi + 1;
    }
    proof {
        assert(fs.take(fs.len() as int) =~= fs);
    }
    let ghost all = spec_all_refs(fs, name);
    let mut out: Vec<EditorRange> = Vec::new();
    let mut i: usize = 0;
    while i < spans.len()
        invariant
            i <= spans@.len(),
            i <= spans.len(),
            spans@ == all,
            all == spec_all_refs(functions@, *call_name),
            out@.len() == i,
            forall|j: int|
                0 <= j < i ==> span_convertible(#[trigger] all[j]) && out@[j] == spec_editor_range(
                    all[j],
                ),
        decreases spans@.len() - i,
    {
        let s = &spans[i];
        if s.start.line >= 1 && s.start.col >= 1 && s.end.line >= 1 && s.end.col >= 1 {
            match span_to_positions(s) {
                Ok((start, end)) => {
                    out.push(EditorRange { start, end });
                },
                Err(_) => {
                    proof {
                        assert(!span_convertible(spec_all_refs(functions@, *call_name)[i as int]));
                    }
                    return Err(LspError::IntegerConversionFailed);
                },
            }
        } else {
            proof {
                assert(!span_convertible(spec_all_refs(functions@, *call_name)[i as int]));
            }
            return Err(LspError::IntegerConversionFailed);
        }
        i = i + 1;
    }
    Ok(out)
}

/// Calls carrying the same information resolve alike.
pub proof fn lemma_related_in_like(a: Seq<CallInfo>, b: Seq<CallInfo>, t: Span)
    requires
        a.len() == b.len(),
        forall|i: int| 0 <= i < a.len() ==> call_like(#[trigger] a[i], b[i]),
    ensures
        spec_related_in(a, t) == spec_related_in(b, t),
    decreases a.len(),
{
    if a.len() > 0 {
        crate::builtins::lemma_call_name_like(a.last().name, b.last().name);
        assert(call_like(a[a.len() - 1], b[a.len() - 1]));
        lemma_related_in_like(a.drop_last(), b.drop_last(), t);
    }
}

/// Calls carrying the same information list the same usage sites.
pub proof fn lemma_fn_refs_like(a: Seq<CallInfo>, b: Seq<CallInfo>, name: CallKind)
    requires
        a.len() == b.len(),
        forall|i: int| 0 <= i < a.len() ==> call_like(#[trigger] a[i], b[i]),
    ensures
        spec_fn_refs(a, name) == spec_fn_refs(b, name),
    decreases a.len(),
{
    if a.len() > 0 {
        crate::builtins::lemma_call_name_like(a.last().name, b.last().name);
        assert(call_like(a[a.len() - 1], b[a.len() - 1]));
        lemma_fn_refs_like(a.drop_last(), b.drop_last(), name);
    }
}

/// Declarations carrying the same information list the same usage
/// sites.
pub proof fn lemma_all_refs_like(a: Seq<FunctionDecl>, b: Seq<FunctionDecl>, name: CallKind)
    requires
        a.len() == b.len(),
        forall|i: int| 0 <= i < a.len() ==> crate::funcs::decl_like(#[trigger] a[i], b[i]),
    ensures
        spec_all_refs(a, name) == spec_all_refs(b, name),
    decreases a.len(),
{
    if a.len() > 0 {
        assert(crate::funcs::decl_like(a[a.len() - 1], b[a.len() - 1]));
        lemma_fn_refs_like(a.last().calls@, b.last().calls@, name);
        lemma_all_refs_like(a.drop_last(), b.drop_last(), name);
    }
}

/// The pattern occurs in `s` at position `i`.
pub open spec fn sub_at(s: Seq<char>, pat: Seq<char>, i: int) -> bool {
    0 <= i && i + pat.len() <= s.len() && s.subrange(i, i + pat.len()) == pat
}

/// First occurrence of `pat` in `hay`.
fn find_sub(hay: &Vec<char>, pat: &Vec<char>) -> (r: Option<usize>)
    ensures
        match r {
            Some(i) => sub_at(hay@, pat@, i as int) && forall|j: int|
                0 <= j < i ==> !sub_at(hay@, pat@, j),
            None => forall|j: int| !sub_at(hay@, pat@, j),
        },
{
    let n = hay.len();
    let m = pat.len();
    if m == 0 {
        proof {
            assert(hay@.subrange(0, 0) =~= pat@);
        }
        return Some(0);
    }
    let mut i: usize = 0;
    while i <= n && n - i >= m
        invariant
            i <= n,
            1 <= m,
            n == hay@.len(),
            m == pat@.len(),
            forall|j: int| 0 <= j < i ==> !sub_at(hay@, pat@, j),
        decreases n - i,
    {
        let mut k: usize = 0;
        let mut matched = true;
        while k < m
            invariant
                k <= m,
                i + m <= n,
                n == hay@.len(),
                m == pat@.len(),
                matched ==> hay@.subrange(i as int, i as int + k as int) == pat@.subrange(
                    0,
                    k as int,
                ),
                !matched ==> !sub_at(hay@, pat@, i as int),
            decreases m - k,
        {
            if matched && hay[i + k] != pat[k] {
                proof {
                    assert(hay@.subrange(i as int, i as int + m as int)[k as int] == hay@[i as int
                        + k as int]);
                    assert(pat@[k as int] != hay@[i as int + k as int]);
                }
                matched = false;
            }
            proof {
                if matched {
                    assert(hay@.subrange(i as int, i as int + k as int + 1) =~= hay@.subrange(
                        i as int,
                        i as int + k as int,
                    ).push(hay@[i as int + k as int]));
                    assert(pat@.subrange(0, k as int + 1) =~= pat@.subrange(0, k as int).push(
                        pat@[k as int],
                    ));
                }
            }
            k = k + 1;
        }
        if matched {
            proof {
                assert(hay@.subrange(i as int, i as int + m as int) =~= pat@.subrange(0, m as int));
                assert(pat@.subrange(0, m as int) =~= pat@);
            }
            return Some(i);
        }
        i = i + 1;
    }
    proof {
        assert forall|j: int| !sub_at(hay@, pat@, j) by {
            if 0 <= j && j + pat@.len() <= hay@.len() {
                assert(j < i);
            }
        }
    }
    None
}

/// The first occurrence of `name` within the line range `start0` to
/// `end0` (both inclusive): `li` is the first such line holding the
/// name, and `col` the first position in that line.
pub open spec fn name_found_at(
    lines: Seq<Seq<char>>,
    start0: int,
    end0: int,
    name: Seq<char>,
    li: int,
    col: int,
) -> bool {
    &&& start0 <= li <= end0
    &&& li < lines.len()
    &&& sub_at(lines[li], name, col)
    &&& forall|c2: int| 0 <= c2 < col ==> !sub_at(lines[li], name, c2)
    &&& forall|l2: int, c2: int|
        #![trigger sub_at(lines[l2], name, c2)]
        start0 <= l2 < li ==> !sub_at(lines[l2], name, c2)
}

/// The name occurs nowhere within the line range `start0` to `end0`.
pub open spec fn name_not_found(
    lines: Seq<Seq<char>>,
    start0: int,
    end0: int,
    name: Seq<char>,
) -> bool {
    forall|l2: int, c2: int|
        #![trigger sub_at(lines[l2], name, c2)]
        start0 <= l2 <= end0 && l2 < lines.len() ==> !sub_at(lines[l2], name, c2)
}

/// Whether a found name range fits the editor's integer width.
pub open spec fn name_range_fits(li: int, col: int, name_len: int) -> bool {
    li <= u32::MAX && col <= u32::MAX && name_len <= u32::MAX && col + name_len <= u32::MAX
}

/// The editor range of a found name.
pub open spec fn spec_name_range(li: int, col: int, name_len: int) -> EditorRange {
    EditorRange {
        start: EditorPosition { line: li as u32, character: col as u32 },
        end: EditorPosition { line: li as u32, character: (col + name_len) as u32 },
    }
}

/// Locate a function's own name in the text: search each line of the
/// declaration's line range, first line to last, for the first
/// occurrence of the name and answer its editor range.
pub fn find_function_name_range(function: &FunctionDecl, text: &ropey::Rope) -> (r: Result<
    EditorRange,
    LspError,
>)
    requires
        function.span.start.line >= 1,
        function.span.end.line >= 1,
    ensures
        ({
            let lines = crate::textbuf::rope_lines(*text);
            let start0 = function.span.start.line - 1;
            let end0 = function.span.end.line - 1;
            let name = function.name@;
            match r {
                Ok(range) => exists|li: int, col: int|
                    {
                        &&& #[trigger] name_found_at(lines, start0, end0, name, li, col)
                        &&& name_range_fits(li, col, name.len() as int)
                        &&& range == spec_name_range(li, col, name.len() as int)
                    },
                Err(e) => {
                    ||| (e matches LspError::FunctionNotFound(m) && m@ == "Function with name "@
                        + name + " not found"@ && name_not_found(lines, start0, end0, name))
                    ||| (e is IntegerConversionFailed && exists|li: int, col: int|
                        #[trigger] name_found_at(lines, start0, end0, name, li, col)
                            && !name_range_fits(li, col, name.len() as int))
                },
            }
        }),
{
    let ghost lines = crate::textbuf::rope_lines(*text);
    let total_lines = crate::textbuf::rope_len_lines(text);
    let name_chars = crate::chars::chars_of(function.name.as_str());
    let start0 = function.span.start.line - 1;
    let end0 = function.span.end.line - 1;
    let mut li: usize = start0;
    loop
        invariant
            start0 <= li,
            end0 == function.span.end.line - 1,
            lines.len() == total_lines,
            lines == crate::textbuf::rope_lines(*text),
            name_chars@ == function.name@,
            start0 == function.span.start.line - 1,
            forall|l2: int, c2: int|
                #![trigger sub_at(lines[l2], function.name@, c2)]
                start0 <= l2 < li ==> !sub_at(lines[l2], function.name@, c2),
        decreases end0 + 1 - li,
    {
        if li > end0 {
            return Err(
                LspError::FunctionNotFound(not_found_message(&function.name)),
            );
        }
        let line_text = match crate::textbuf::rope_line(text, li) {
            Some(s) => s,
            None => {
                return Err(
                    LspError::FunctionNotFound(not_found_message(&function.name)),
                );
            },
        };
        let hay = crate::chars::chars_of(line_text.as_str());
        match find_sub(&hay, &name_chars) {
            Some(col) => {
                let name_len = name_chars.len();
                proof {
                    assert(name_found_at(
                        lines,
                        function.span.start.line - 1,
                        function.span.end.line - 1,
                        function.name@,
                        li as int,
                        col as int,
                    ));
                }
                if li <= u32::MAX as usize && col <= u32::MAX as usize && name_len
                    <= u32::MAX as usize && col as u64 + name_len as u64 <= u32::MAX as u64 {
                    return Ok(
                        EditorRange {
                            start: EditorPosition { line: li as u32, character: col as u32 },
                            end: EditorPosition {
                                line: li as u32,
                                character: col as u32 + name_len as u32,
                            },
                        },
                    );
                } else {
                    return Err(LspError::IntegerConversionFailed);
                }
            },
            None => {},
        }
        li = li + 1;
    }
}

/// The message reported when a function's name does not occur in its
/// declaration's line range.
fn not_found_message(name: &String) -> (m: String)
    ensures
        m@ == "Function with name "@ + name@ + " not found"@,
{
    let mut m: Vec<char> = Vec::new();
    crate::chars::push_str_chars(&mut m, "Function with name ");
    crate::chars::push_str_chars(&mut m, name.as_str());
    crate::chars::push_str_chars(&mut m, " not found");
    crate::chars::chars_to_string(&m)
}

} // verus!
