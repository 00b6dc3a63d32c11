//! The query handlers: completion, hover, go-to-definition and
//! find-references.
//!
//! Each handler reads one document snapshot and answers from it: the
//! point under the cursor is lifted to a structural span, the call or
//! declaration at that point is resolved, and the answer is rendered
//! from the catalog or the document's own index.

use vstd::prelude::*;
use vstd::string::StringExecFns;

use crate::builtins::{
    lemma_call_name_like, lemma_template_for_like, spec_call_kind_eq, spec_call_name,
    spec_template_for, match_callname, CallKind,
};
use crate::completion::{spec_selected, CompletionEntry, CompletionProvider};
use crate::coords::{
    editor_position_le, position_to_span, span_contains, span_convertible, span_to_positions,
    spec_editor_le, spec_editor_range, spec_point_span, spec_span_contains, EditorPosition,
    EditorRange, Span,
};
use crate::chars::{chars_of, chars_to_string, push_chars, push_str_chars, subvec};
use crate::document::Document;
use crate::errors::LspError;
use crate::funcs::{
    call_like, decl_like, function_to_template, spec_has_name, CallInfo, FunctionDecl, Functions,
};
use crate::resolve::{
    find_all_references, find_function_name_range, find_related_call, get_call_span,
    name_found_at, name_not_found, name_range_fits, name_span_ok, spec_all_refs,
    spec_enclosing_from, spec_first_enclosing, spec_name_range, spec_name_span, spec_related_in,
    lemma_enclosing_bounds, lemma_related_in_bounds, lemma_related_in_like, lemma_all_refs_like,
};
use crate::template::{join_strings, spec_join, views_of_strings, FunctionTemplate};
use crate::textbuf::{rope_line, rope_lines};

verus! {

/// The declarations of an index, in index order.
pub open spec fn spec_decls(fs: Functions) -> Seq<FunctionDecl> {
    Seq::new(fs.map@.len(), |i: int| fs.map@[i].func)
}

/// The call under `t`: within the first declaration whose span
/// contains `t`, the index of the last call in pre-order whose name
/// span contains `t`.
pub open spec fn spec_related_call(fns: Seq<FunctionDecl>, t: Span) -> Option<(int, int)> {
    match spec_first_enclosing(fns, t) {
        None => None,
        Some(fi) => match spec_related_in(fns[fi].calls@, t) {
            None => None,
            Some(ci) => Some((fi, ci)),
        },
    }
}

fn decls_of(fs: &Functions) -> (r: Vec<FunctionDecl>)
    ensures
        r@.len() == spec_decls(*fs).len(),
        forall|i: int| 0 <= i < r@.len() ==> decl_like(#[trigger] r@[i], spec_decls(*fs)[i]),
{
    let r = fs.functions();
    proof {
        assert(spec_decls(*fs).len() == fs.map@.len());
        assert forall|i: int| 0 <= i < r@.len() implies decl_like(
            #[trigger] r@[i],
            spec_decls(*fs)[i],
        ) by {
            assert(spec_decls(*fs)[i] == fs.map@[i].func);
        }
    }
    r
}

/// Resolution is the same over declaration lists that carry the same
/// information.
proof fn lemma_enclosing_from_like(a: Seq<FunctionDecl>, b: Seq<FunctionDecl>, t: Span, i: int)
    requires
        a.len() == b.len(),
        forall|k: int| 0 <= k < a.len() ==> decl_like(#[trigger] a[k], b[k]),
    ensures
        spec_enclosing_from(a, t, i) == spec_enclosing_from(b, t, i),
    decreases a.len() - i,
{
    if 0 <= i < a.len() {
        assert(decl_like(a[i], b[i]));
        if !spec_span_contains(a[i].span, t) {
            lemma_enclosing_from_like(a, b, t, i + 1);
        }
    }
}

proof fn lemma_resolution_like(a: Seq<FunctionDecl>, b: Seq<FunctionDecl>, t: Span)
    requires
        a.len() == b.len(),
        forall|i: int| 0 <= i < a.len() ==> decl_like(#[trigger] a[i], b[i]),
    ensures
        spec_first_enclosing(a, t) == spec_first_enclosing(b, t),
        forall|i: int|
            0 <= i < a.len() ==> spec_related_in((#[trigger] a[i]).calls@, t) == spec_related_in(
                b[i].calls@,
                t,
            ),
        spec_related_call(a, t) == spec_related_call(b, t),
{
    lemma_enclosing_from_like(a, b, t, 0);
    lemma_enclosing_bounds(a, t, 0);
    lemma_enclosing_bounds(b, t, 0);
    assert forall|i: int|
        0 <= i < a.len() implies spec_related_in((#[trigger] a[i]).calls@, t) == spec_related_in(
        b[i].calls@,
        t,
    ) by {
        assert(decl_like(a[i], b[i]));
        lemma_related_in_like(a[i].calls@, b[i].calls@, t);
    }
}

/// First declaration carrying `name`, by index order.
fn find_decl_by_name(fns: &Vec<FunctionDecl>, name: &str) -> (r: Option<usize>)
    ensures
        match r {
            Some(ti) => ti < fns@.len() && fns@[ti as int].name@ == name@ && spec_find_from(
                fns@,
                name@,
                0,
            ) == Some(ti as int),
            None => spec_find_from(fns@, name@, 0) is None,
        },
{
    let mut ti: usize = 0;
    while ti < fns.len()
        invariant
            ti <= fns@.len(),
            spec_find_from(fns@, name@, 0) == spec_find_from(fns@, name@, ti as int),
        decreases fns@.len() - ti,
    {
        if crate::chars::str_eq(fns[ti].name.as_str(), name) {
            return Some(ti);
        }
        ti = ti + 1;
    }
    None
}

/// First declaration whose span contains `t`, by index order.
fn find_first_enclosing(fns: &Vec<FunctionDecl>, t: Span) -> (r: Option<usize>)
    ensures
        match r {
            Some(fi) => fi < fns@.len() && spec_span_contains(fns@[fi as int].span, t)
                && spec_first_enclosing(fns@, t) == Some(fi as int),
            None => spec_first_enclosing(fns@, t) is None,
        },
{
    let mut fi: usize = 0;
    while fi < fns.len()
        invariant
            fi <= fns@.len(),
            spec_first_enclosing(fns@, t) == spec_enclosing_from(fns@, t, fi as int),
        decreases fns@.len() - fi,
    {
        if span_contains(&fns[fi].span, &t) {
            return Some(fi);
        }
        fi = fi + 1;
    }
    None
}

// ---------------------------------------------------------------------
// Completion.
// ---------------------------------------------------------------------

/// Answer a completion request: slice the current line up to the
/// cursor, classify it, and select the candidates.
pub fn completion_query(
    provider: &CompletionProvider,
    doc: &Document,
    pos: EditorPosition,
) -> (r: Result<Option<Vec<CompletionEntry>>, LspError>)
    ensures
        ({
            let lines = rope_lines(doc.text);
            match r {
                Err(e) => (pos.line >= lines.len() && e is Internal) || (pos.line < lines.len()
                    && pos.character > lines[pos.line as int].len() && e is ConversionFailed),
                Ok(opt) => pos.line < lines.len() && pos.character <= lines[pos.line as int].len()
                    && spec_selected(
                    *provider,
                    doc.functions,
                    lines[pos.line as int].subrange(0, pos.character as int),
                    opt,
                ),
            }
        }),
{
    let line = match rope_line(&doc.text, pos.line as usize) {
        Some(l) => l,
        None => {
            return Err(LspError::Internal(String::from_str("Rope proccesing error")));
        },
    };
    let chars = chars_of(line.as_str());
    if pos.character as usize > chars.len() {
        return Err(
            LspError::ConversionFailed(String::from_str("Rope to slice conversion failed")),
        );
    }
    let prefix = chars_to_string(&subvec(&chars, 0, pos.character as usize));
    Ok(provider.process_completions(prefix.as_str(), &doc.functions))
}

// ---------------------------------------------------------------------
// Hover.
// ---------------------------------------------------------------------

/// A hover answer: rendered markdown and the range it covers.
#[derive(Debug)]
pub struct HoverInfo {
    /// The rendered markdown text.
    pub contents: String,
    /// The editor range of the hovered call name.
    pub range: EditorRange,
}

/// A rendered signature line.
pub open spec fn spec_sig_text(name: Seq<char>, args: Seq<Seq<char>>, ret: Seq<char>) -> Seq<
    char,
> {
    "fn "@ + name + "("@ + spec_join(args, ", "@) + ") -> "@ + ret
}

/// The hover card of a primitive operation.
pub open spec fn jet_hover_text(t: FunctionTemplate) -> Seq<char> {
    "Jet function\n```simplicityhl\n"@ + spec_sig_text(
        t.display_name@,
        views_of_strings(t.args@),
        t.return_type@,
    ) + "\n```\n---\n\n"@ + t.description@
}

/// The hover card of a user-defined function.
pub open spec fn custom_hover_text(f: FunctionDecl, doc: Seq<char>) -> Seq<char> {
    "```simplicityhl\n"@ + spec_sig_text(
        f.name@,
        views_of_strings(f.params@),
        match f.ret {
            Some(r) => r@,
            None => "()"@,
        },
    ) + "\n```\n---\n"@ + doc
}

/// The hover card of a built-in construct.
pub open spec fn builtin_hover_text(t: FunctionTemplate) -> Seq<char> {
    "Built-in function\n```simplicityhl\n"@ + spec_sig_text(
        t.display_name@,
        views_of_strings(t.args@),
        t.return_type@,
    ) + "\n```\n---\n"@ + t.description@
}

/// `k` is the first catalog entry named `jname`.
pub open spec fn jet_catalog_hit(cat: Seq<FunctionTemplate>, jname: Seq<char>, k: int) -> bool {
    &&& 0 <= k < cat.len()
    &&& cat[k].display_name@ == jname
    &&& forall|j: int| 0 <= j < k ==> (#[trigger] cat[j]).display_name@ != jname
}

/// No catalog entry is named `jname`.
pub open spec fn jet_catalog_miss(cat: Seq<FunctionTemplate>, jname: Seq<char>) -> bool {
    forall|k: int| 0 <= k < cat.len() ==> (#[trigger] cat[k]).display_name@ != jname
}

/// What a hover answer renders for the resolved call `c`.
pub open spec fn hover_renders(
    p: CompletionProvider,
    fs: Functions,
    c: CallInfo,
    h: HoverInfo,
) -> bool {
    &&& name_span_ok(c)
    &&& span_convertible(spec_name_span(c))
    &&& h.range == spec_editor_range(spec_name_span(c))
    &&& match c.name {
        CallKind::Jet(j) => exists|k: int|
            #[trigger] jet_catalog_hit(p.jet_catalog@, j@, k) && h.contents@ == jet_hover_text(
                p.jet_catalog@[k],
            ),
        CallKind::Custom(n) => exists|i: int|
            {
                &&& 0 <= i < fs.map@.len()
                &&& (#[trigger] fs.map@[i]).name@ == n@
                &&& h.contents@ == custom_hover_text(fs.map@[i].func, fs.map@[i].doc@)
            },
        _ => exists|t: FunctionTemplate|
            #[trigger] spec_template_for(c.name, t) && h.contents@ == builtin_hover_text(t),
    }
}

fn render_sig_text(
    tag: &str,
    name: &str,
    args: &Vec<String>,
    ret: &str,
    sep: &str,
    desc: &str,
) -> (r: String)
    ensures
        r@ == tag@ + spec_sig_text(name@, views_of_strings(args@), ret@) + sep@ + desc@,
{
    let mut v: Vec<char> = Vec::new();
    push_str_chars(&mut v, tag);
    push_str_chars(&mut v, "fn ");
    push_str_chars(&mut v, name);
    push_str_chars(&mut v, "(");
    let joined = join_strings(args);
    push_chars(&mut v, &joined);
    push_str_chars(&mut v, ") -> ");
    push_str_chars(&mut v, ret);
    push_str_chars(&mut v, sep);
    push_str_chars(&mut v, desc);
    proof {
        assert(v@ =~= tag@ + spec_sig_text(name@, views_of_strings(args@), ret@) + sep@ + desc@);
    }
    chars_to_string(&v)
}

/// The declaration-name fallback of a hover request: with no call
/// under the point, a hover is still answered when the point lies on
/// an enclosing declaration's own name, rendering that function's
/// declared signature and documentation at its name range.
fn hover_fallback(doc: &Document, pos: EditorPosition, token_span: Span) -> (r: Result<
    Option<HoverInfo>,
    LspError,
>)
    requires
        token_span == spec_point_span(pos),
        spec_related_call(spec_decls(doc.functions), token_span) is None,
    ensures
        ({
            let decls = spec_decls(doc.functions);
            let lines = rope_lines(doc.text);
            match r {
                Ok(None) => match spec_first_enclosing(decls, token_span) {
                    None => true,
                    Some(fi) => exists|li: int, col: int|
                        #[trigger] target_name_range_at(lines, decls[fi], li, col)
                            && !spec_pos_within(
                            pos,
                            spec_name_range(li, col, decls[fi].name@.len() as int),
                        ),
                },
                Ok(Some(h)) => (spec_first_enclosing(decls, token_span) matches Some(fi)
                    && exists|li: int, col: int|
                    {
                        &&& #[trigger] target_name_range_at(lines, decls[fi], li, col)
                        &&& spec_pos_within(
                            pos,
                            spec_name_range(li, col, decls[fi].name@.len() as int),
                        )
                        &&& h.range == spec_name_range(li, col, decls[fi].name@.len() as int)
                        &&& h.contents@ == custom_hover_text(
                            decls[fi],
                            doc.functions.map@[fi].doc@,
                        )
                    }),
                Err(e) => (spec_first_enclosing(decls, token_span) matches Some(fi) && {
                    ||| (e is IntegerConversionFailed && (decls[fi].span.start.line < 1
                        || decls[fi].span.end.line < 1 || exists|li: int, col: int|
                        #[trigger] name_found_at(
                            lines,
                            decls[fi].span.start.line - 1,
                            decls[fi].span.end.line - 1,
                            decls[fi].name@,
                            li,
                            col,
                        ) && !name_range_fits(li, col, decls[fi].name@.len() as int)))
                    ||| (e matches LspError::FunctionNotFound(m) && name_not_found(
                        lines,
                        decls[fi].span.start.line - 1,
                        decls[fi].span.end.line - 1,
                        decls[fi].name@,
                    ) && m@ == "Function with name "@ + decls[fi].name@ + " not found"@)
                }),
            }
        }),
{
    let ghost decls = spec_decls(doc.functions);
    let mut fi: usize = 0;
    let mut found: bool = false;
    while fi < doc.functions.map.len() && !found
        invariant
            fi <= doc.functions.map@.len(),
            decls == spec_decls(doc.functions),
            decls.len() == doc.functions.map@.len(),
            found ==> fi < decls.len() && spec_span_contains(decls[fi as int].span, token_span)
                && spec_first_enclosing(decls, token_span) == Some(fi as int),
            !found ==> spec_first_enclosing(decls, token_span) == spec_enclosing_from(
                decls,
                token_span,
                fi as int,
            ),
        decreases doc.functions.map@.len() - fi + (if found {
            0int
        } else {
            1int
        }),
    {
        proof {
            assert(decls[fi as int] == doc.functions.map@[fi as int].func);
        }
        if span_contains(&doc.functions.map[fi].func.span, &token_span) {
            found = true;
        } else {
            fi = fi + 1;
        }
    }
    if !found {
        return Ok(None);
    }
    proof {
        assert(decls[fi as int] == doc.functions.map@[fi as int].func);
    }
    let f = &doc.functions.map[fi].func;
    if f.span.start.line < 1 || f.span.end.line < 1 {
        return Err(LspError::IntegerConversionFailed);
    }
    let range = match find_function_name_range(f, &doc.text) {
        Ok(range) => range,
        Err(e) => {
            return Err(e);
        },
    };
    proof {
        let (li0, col0) = choose|li: int, col: int|
            {
                &&& #[trigger] name_found_at(
                    rope_lines(doc.text),
                    doc.functions.map@[fi as int].func.span.start.line - 1,
                    doc.functions.map@[fi as int].func.span.end.line - 1,
                    doc.functions.map@[fi as int].func.name@,
                    li,
                    col,
                )
                &&& name_range_fits(
                    li,
                    col,
                    doc.functions.map@[fi as int].func.name@.len() as int,
                )
                &&& range == spec_name_range(
                    li,
                    col,
                    doc.functions.map@[fi as int].func.name@.len() as int,
                )
            };
        assert(target_name_range_at(rope_lines(doc.text), decls[fi as int], li0, col0));
    }
    if editor_position_le(&range.start, &pos) && editor_position_le(&pos, &range.end) {
        let t = function_to_template(f, doc.functions.map[fi].doc.as_str());
        let contents = render_sig_text(
            "```simplicityhl\n",
            t.display_name.as_str(),
            &t.args,
            t.return_type.as_str(),
            "\n```\n---\n",
            t.description.as_str(),
        );
        Ok(Some(HoverInfo { contents, range }))
    } else {
        Ok(None)
    }
}

/// Answer a hover request: resolve the call under the point and render
/// its signature and documentation; a primitive operation renders from
/// the catalog, a user-defined function from the document's index, and
/// a built-in construct from its fixed template.
pub fn hover_query(provider: &CompletionProvider, doc: &Document, pos: EditorPosition) -> (r:
    Result<Option<HoverInfo>, LspError>)
    ensures
        ({
            let t = spec_point_span(pos);
            let decls = spec_decls(doc.functions);
            let lines = rope_lines(doc.text);
            match r {
                Ok(None) => spec_related_call(decls, t) is None && (match spec_first_enclosing(
                    decls,
                    t,
                ) {
                    None => true,
                    Some(fi) => exists|li: int, col: int|
                        #[trigger] target_name_range_at(lines, decls[fi], li, col)
                            && !spec_pos_within(
                            pos,
                            spec_name_range(li, col, decls[fi].name@.len() as int),
                        ),
                }),
                Ok(Some(h)) => match spec_related_call(decls, t) {
                    Some((fi, ci)) => hover_renders(
                        *provider,
                        doc.functions,
                        decls[fi].calls@[ci],
                        h,
                    ),
                    None => (spec_first_enclosing(decls, t) matches Some(fi) && exists|
                        li: int,
                        col: int,
                    |
                        {
                            &&& #[trigger] target_name_range_at(lines, decls[fi], li, col)
                            &&& spec_pos_within(
                                pos,
                                spec_name_range(li, col, decls[fi].name@.len() as int),
                            )
                            &&& h.range == spec_name_range(
                                li,
                                col,
                                decls[fi].name@.len() as int,
                            )
                            &&& h.contents@ == custom_hover_text(
                                decls[fi],
                                doc.functions.map@[fi].doc@,
                            )
                        }),
                },
                Err(e) => {
                    ||| (e is IntegerConversionFailed && (pos.line + 1 > usize::MAX
                        || pos.character + 1 > usize::MAX || (spec_related_call(decls, t)
                        matches Some((fi, ci)) && !(name_span_ok(decls[fi].calls@[ci])
                        && span_convertible(spec_name_span(decls[fi].calls@[ci])))) || (
                    spec_related_call(decls, t) is None && (spec_first_enclosing(decls, t)
                        matches Some(fi) && (decls[fi].span.start.line < 1
                        || decls[fi].span.end.line < 1 || exists|li: int, col: int|
                        #[trigger] name_found_at(
                            lines,
                            decls[fi].span.start.line - 1,
                            decls[fi].span.end.line - 1,
                            decls[fi].name@,
                            li,
                            col,
                        ) && !name_range_fits(li, col, decls[fi].name@.len() as int))))))
                    ||| (spec_related_call(decls, t) matches Some((fi, ci))
                        && match decls[fi].calls@[ci].name {
                        CallKind::Custom(n) => e matches LspError::FunctionNotFound(m) && m@
                            == "Function "@ + n@ + " is not found"@ && !spec_has_name(
                            doc.functions.map@,
                            n@,
                        ),
                        CallKind::Jet(j) => e matches LspError::ConversionFailed(m) && m@
                            == "unknown jet: "@ + j@ && jet_catalog_miss(
                            provider.jet_catalog@,
                            j@,
                        ),
                        _ => false,
                    })
                    ||| (spec_related_call(decls, t) is None && (spec_first_enclosing(decls, t)
                        matches Some(fi) && (e matches LspError::FunctionNotFound(m)
                        && name_not_found(
                        lines,
                        decls[fi].span.start.line - 1,
                        decls[fi].span.end.line - 1,
                        decls[fi].name@,
                    ) && m@ == "Function with name "@ + decls[fi].name@ + " not found"@)))
                },
            }
        }),
{
    let fns = decls_of(&doc.functions);
    let ghost decls = spec_decls(doc.functions);
    let token_span = match position_to_span(pos) {
        Ok(s) => s,
        Err(_) => {
            return Err(LspError::IntegerConversionFailed);
        },
    };
    proof {
        lemma_resolution_like(fns@, decls, token_span);
    }
    let related = find_related_call(&fns, token_span);
    let call = match related {
        Ok(Some(c)) => c,
        Ok(None) => {
            proof {
                lemma_enclosing_bounds(fns@, token_span, 0);
                assert(spec_related_call(decls, token_span) is None);
            }
            return hover_fallback(doc, pos, token_span);
        },
        Err(_) => {
            proof {
                assert(spec_related_call(decls, token_span) is None);
            }
            return hover_fallback(doc, pos, token_span);
        },
    };
    let ghost gfi = spec_first_enclosing(fns@, token_span)->Some_0;
    let ghost gci = spec_related_in(fns@[gfi].calls@, token_span)->Some_0;
    proof {
        lemma_enclosing_bounds(fns@, token_span, 0);
        assert(0 <= gfi < fns@.len());
        lemma_related_in_bounds(fns@[gfi].calls@, token_span);
        assert(0 <= gci < fns@[gfi].calls@.len());
        assert(spec_related_call(decls, token_span) == Some((gfi, gci)));
        assert(call_like(call, fns@[gfi].calls@[gci]));
        assert(decl_like(fns@[gfi], decls[gfi]));
        assert(call_like(fns@[gfi].calls@[gci], decls[gfi].calls@[gci]));
        assert(call_like(call, decls[gfi].calls@[gci]));
        lemma_call_name_like(call.name, decls[gfi].calls@[gci].name);
    }
    let call_span = match get_call_span(&call) {
        Ok(s) => s,
        Err(_) => {
            return Err(LspError::IntegerConversionFailed);
        },
    };
    if !(call_span.start.line >= 1 && call_span.start.col >= 1 && call_span.end.line >= 1
        && call_span.end.col >= 1) {
        return Err(LspError::IntegerConversionFailed);
    }
    let (start, end) = match span_to_positions(&call_span) {
        Ok(p) => p,
        Err(_) => {
            return Err(LspError::IntegerConversionFailed);
        },
    };
    let range = EditorRange { start, end };
    proof {
        assert(call.span == decls[gfi].calls@[gci].span);
        assert(spec_call_name(call.name) == spec_call_name(decls[gfi].calls@[gci].name));
        assert(name_span_ok(decls[gfi].calls@[gci]));
        assert(spec_name_span(decls[gfi].calls@[gci]) == spec_name_span(call));
        assert(range == spec_editor_range(spec_name_span(decls[gfi].calls@[gci])));
    }
    match &call.name {
        CallKind::Jet(j) => {
            let mut k: usize = 0;
            while k < provider.jet_catalog.len()
                invariant
                    k <= provider.jet_catalog@.len(),
                    forall|j2: int|
                        0 <= j2 < k ==> (#[trigger] provider.jet_catalog@[j2]).display_name@
                            != j@,
                    decls == spec_decls(doc.functions),
                    0 <= gfi < decls.len(),
                    0 <= gci < decls[gfi].calls@.len(),
                    spec_related_call(decls, token_span) == Some((gfi, gci)),
                    token_span == spec_point_span(pos),
                    call_like(call, decls[gfi].calls@[gci]),
                    call.name matches CallKind::Jet(jn) && jn@ == j@,
                    name_span_ok(decls[gfi].calls@[gci]),
                    span_convertible(spec_name_span(decls[gfi].calls@[gci])),
                    range == spec_editor_range(spec_name_span(decls[gfi].calls@[gci])),
                decreases provider.jet_catalog@.len() - k,
            {
                if crate::chars::str_eq(provider.jet_catalog[k].display_name.as_str(), j.as_str())
                {
                    let t = &provider.jet_catalog[k];
                    let contents = render_sig_text(
                        "Jet function\n```simplicityhl\n",
                        t.display_name.as_str(),
                        &t.args,
                        t.return_type.as_str(),
                        "\n```\n---\n\n",
                        t.description.as_str(),
                    );
                    let h = HoverInfo { contents, range };
                    proof {
                        assert(jet_catalog_hit(provider.jet_catalog@, j@, k as int));
                        let c = decls[gfi].calls@[gci];
                        assert(spec_call_kind_eq(call.name, c.name));
                        assert(c.name matches CallKind::Jet(jd) && jd@ == j@);
                        assert(h.contents@ == jet_hover_text(provider.jet_catalog@[k as int]));
                        assert(hover_renders(*provider, doc.functions, c, h));
                    }
                    return Ok(Some(h));
                }
                k = k + 1;
            }
            let mut m: Vec<char> = Vec::new();
            push_str_chars(&mut m, "unknown jet: ");
            push_str_chars(&mut m, j.as_str());
            Err(LspError::ConversionFailed(chars_to_string(&m)))
        },
        CallKind::Custom(n) => {
            match doc.functions.get(n.as_str()) {
                Some((f, d)) => {
                    let t = function_to_template(f, d.as_str());
                    let contents = render_sig_text(
                        "```simplicityhl\n",
                        t.display_name.as_str(),
                        &t.args,
                        t.return_type.as_str(),
                        "\n```\n---\n",
                        t.description.as_str(),
                    );
                    Ok(Some(HoverInfo { contents, range }))
                },
                None => {
                    let mut m: Vec<char> = Vec::new();
                    push_str_chars(&mut m, "Function ");
                    push_str_chars(&mut m, n.as_str());
                    push_str_chars(&mut m, " is not found");
                    Err(LspError::FunctionNotFound(chars_to_string(&m)))
                },
            }
        },
        _ => {
            match match_callname(&call.name) {
                Some(t) => {
                    let contents = render_sig_text(
                        "Built-in function\n```simplicityhl\n",
                        t.display_name.as_str(),
                        &t.args,
                        t.return_type.as_str(),
                        "\n```\n---\n",
                        t.description.as_str(),
                    );
                    proof {
                        lemma_template_for_like(call.name, decls[gfi].calls@[gci].name, t);
                    }
                    Ok(Some(HoverInfo { contents, range }))
                },
                None => {
                    proof {
                        assert(false);
                    }
                    Ok(None)
                },
            }
        },
    }
}

// ---------------------------------------------------------------------
// Go-to-definition and find-references.
// ---------------------------------------------------------------------

/// The first declaration at or after `i` named `n`.
pub open spec fn spec_find_from(fns: Seq<FunctionDecl>, n: Seq<char>, i: int) -> Option<int>
    decreases fns.len() - i,
{
    if i < 0 || i >= fns.len() {
        None
    } else if fns[i].name@ == n {
        Some(i)
    } else {
        spec_find_from(fns, n, i + 1)
    }
}

proof fn lemma_find_from_like(a: Seq<FunctionDecl>, b: Seq<FunctionDecl>, n: Seq<char>, i: int)
    requires
        a.len() == b.len(),
        forall|k: int| 0 <= k < a.len() ==> decl_like(#[trigger] a[k], b[k]),
    ensures
        spec_find_from(a, n, i) == spec_find_from(b, n, i),
    decreases a.len() - i,
{
    if 0 <= i < a.len() {
        assert(decl_like(a[i], b[i]));
        if a[i].name@ != n {
            lemma_find_from_like(a, b, n, i + 1);
        }
    }
}

/// A found named declaration lies within the list and carries the name.
pub proof fn lemma_find_from_bounds(fns: Seq<FunctionDecl>, n: Seq<char>, i: int)
    ensures
        spec_find_from(fns, n, i) matches Some(fi) ==> i <= fi < fns.len() && fns[fi].name@ == n,
    decreases fns.len() - i,
{
    if 0 <= i < fns.len() && fns[i].name@ != n {
        lemma_find_from_bounds(fns, n, i + 1);
    }
}

/// The editor position lies within the range, boundaries included.
pub open spec fn spec_pos_within(pos: EditorPosition, range: EditorRange) -> bool {
    spec_editor_le(range.start, pos) && spec_editor_le(pos, range.end)
}

/// A converted usage list: the editor ranges of every usage of `name`,
/// in order.
pub open spec fn refs_converted(
    fns: Seq<FunctionDecl>,
    name: CallKind,
    v: Seq<EditorRange>,
) -> bool {
    let all = spec_all_refs(fns, name);
    v.len() == all.len() && forall|i: int|
        0 <= i < v.len() ==> span_convertible(#[trigger] all[i]) && v[i] == spec_editor_range(
            all[i],
        )
}

/// The declaration whose own name range is answered: for a resolved
/// user-defined call, the first declaration of that name; with no
/// resolved call, the first declaration enclosing the point.
pub open spec fn spec_ref_target(fns: Seq<FunctionDecl>, t: Span) -> Option<int> {
    match spec_related_call(fns, t) {
        Some((fi, ci)) => match fns[fi].calls@[ci].name {
            CallKind::Custom(n) => spec_find_from(fns, n@, 0),
            _ => None,
        },
        None => spec_first_enclosing(fns, t),
    }
}

/// The found name range of declaration `f`, as the answer uses it: the
/// first occurrence of the name within the declaration's line range,
/// fitting the editor's integer width.
pub open spec fn target_name_range_at(
    lines: Seq<Seq<char>>,
    f: FunctionDecl,
    li: int,
    col: int,
) -> bool {
    name_found_at(lines, f.span.start.line - 1, f.span.end.line - 1, f.name@, li, col)
        && name_range_fits(li, col, f.name@.len() as int)
}

/// Answer a go-to-definition request: for a user-defined call under the
/// point, the range of that function's declared name; with no call
/// under the point, the declared name of the enclosing function when
/// the point lies on it.
pub fn definition_query(doc: &Document, pos: EditorPosition) -> (r: Result<
    Option<EditorRange>,
    LspError,
>)
    ensures
        ({
            let t = spec_point_span(pos);
            let decls = spec_decls(doc.functions);
            let lines = rope_lines(doc.text);
            match r {
                Ok(opt) => match spec_related_call(decls, t) {
                    Some((fi, ci)) => match decls[fi].calls@[ci].name {
                        CallKind::Custom(n) => (match spec_find_from(decls, n@, 0) {
                            Some(ti) => opt matches Some(range) && exists|li: int, col: int|
                                #[trigger] target_name_range_at(lines, decls[ti], li, col)
                                    && range == spec_name_range(
                                    li,
                                    col,
                                    decls[ti].name@.len() as int,
                                ),
                            None => false,
                        }),
                        _ => opt is None,
                    },
                    None => match spec_first_enclosing(decls, t) {
                        Some(fi) => match opt {
                            Some(range) => exists|li: int, col: int|
                                #[trigger] target_name_range_at(lines, decls[fi], li, col)
                                    && range == spec_name_range(
                                    li,
                                    col,
                                    decls[fi].name@.len() as int,
                                ) && spec_pos_within(pos, range),
                            None => exists|li: int, col: int|
                                #[trigger] target_name_range_at(lines, decls[fi], li, col)
                                    && !spec_pos_within(
                                    pos,
                                    spec_name_range(li, col, decls[fi].name@.len() as int),
                                ),
                        },
                        None => opt is None,
                    },
                },
                Err(e) => {
                    ||| (e is IntegerConversionFailed && (pos.line + 1 > usize::MAX
                        || pos.character + 1 > usize::MAX || (spec_ref_target(decls, t)
                        matches Some(ti) && (decls[ti].span.start.line < 1
                        || decls[ti].span.end.line < 1 || exists|li: int, col: int|
                        #[trigger] name_found_at(
                            lines,
                            decls[ti].span.start.line - 1,
                            decls[ti].span.end.line - 1,
                            decls[ti].name@,
                            li,
                            col,
                        ) && !name_range_fits(li, col, decls[ti].name@.len() as int)))))
                    ||| (e matches LspError::FunctionNotFound(m) && {
                        ||| (spec_related_call(decls, t) matches Some((fi, ci)) && (decls[fi].calls@[ci].name
                            matches CallKind::Custom(n) && spec_find_from(decls, n@, 0) is None
                            && m@ == "Function "@ + n@ + " is not found"@))
                        ||| (spec_ref_target(decls, t) matches Some(ti) && name_not_found(
                            lines,
                            decls[ti].span.start.line - 1,
                            decls[ti].span.end.line - 1,
                            decls[ti].name@,
                        ) && m@ == "Function with name "@ + decls[ti].name@ + " not found"@)
                    })
                },
            }
        }),
{
    let fns = decls_of(&doc.functions);
    let ghost decls = spec_decls(doc.functions);
    let token_span = match position_to_span(pos) {
        Ok(s) => s,
        Err(_) => {
            return Err(LspError::IntegerConversionFailed);
        },
    };
    proof {
        lemma_resolution_like(fns@, decls, token_span);
    }
    let related = find_related_call(&fns, token_span);
    match related {
        Ok(Some(call)) => {
            let ghost gfi = spec_first_enclosing(fns@, token_span)->Some_0;
            let ghost gci = spec_related_in(fns@[gfi].calls@, token_span)->Some_0;
            proof {
                lemma_enclosing_bounds(fns@, token_span, 0);
                lemma_related_in_bounds(fns@[gfi].calls@, token_span);
                assert(spec_related_call(decls, token_span) == Some((gfi, gci)));
                assert(call_like(call, decls[gfi].calls@[gci]));
            }
            match &call.name {
                CallKind::Custom(n) => {
                    proof {
                        assert(decls[gfi].calls@[gci].name matches CallKind::Custom(n2) && n2@
                            == n@);
                        lemma_find_from_like(fns@, decls, n@, 0);
                        lemma_find_from_bounds(fns@, n@, 0);
                    }
                    let ti = match find_decl_by_name(&fns, n.as_str()) {
                        Some(ti) => ti,
                        None => {
                            let mut m: Vec<char> = Vec::new();
                            push_str_chars(&mut m, "Function ");
                            push_str_chars(&mut m, n.as_str());
                            push_str_chars(&mut m, " is not found");
                            return Err(LspError::FunctionNotFound(chars_to_string(&m)));
                        },
                    };
                    proof {
                        assert(decl_like(fns@[ti as int], decls[ti as int]));
                    }
                    let f = &fns[ti];
                    if f.span.start.line < 1 || f.span.end.line < 1 {
                        return Err(LspError::IntegerConversionFailed);
                    }
                    match find_function_name_range(f, &doc.text) {
                        Ok(range) => {
                            proof {
                                assert(fns@[ti as int].name@ == decls[ti as int].name@);
                                assert(fns@[ti as int].span == decls[ti as int].span);
                                let (li0, col0) = choose|li: int, col: int|
                                    {
                                        &&& #[trigger] name_found_at(
                                            rope_lines(doc.text),
                                            fns@[ti as int].span.start.line - 1,
                                            fns@[ti as int].span.end.line - 1,
                                            fns@[ti as int].name@,
                                            li,
                                            col,
                                        )
                                        &&& name_range_fits(
                                            li,
                                            col,
                                            fns@[ti as int].name@.len() as int,
                                        )
                                        &&& range == spec_name_range(
                                            li,
                                            col,
                                            fns@[ti as int].name@.len() as int,
                                        )
                                    };
                                assert(target_name_range_at(
                                    rope_lines(doc.text),
                                    decls[ti as int],
                                    li0,
                                    col0,
                                ));
                            }
                            Ok(Some(range))
                        },
                        Err(e) => Err(e),
                    }
                },
                _ => Ok(None),
            }
        },
        Ok(None) | Err(_) => {
            let fi = match find_first_enclosing(&fns, token_span) {
                Some(fi) => fi,
                None => {
                    return Ok(None);
                },
            };
            proof {
                assert(decl_like(fns@[fi as int], decls[fi as int]));
            }
            let f = &fns[fi];
            if f.span.start.line < 1 || f.span.end.line < 1 {
                return Err(LspError::IntegerConversionFailed);
            }
            let range = match find_function_name_range(f, &doc.text) {
                Ok(range) => range,
                Err(e) => {
                    return Err(e);
                },
            };
            proof {
                let (li0, col0) = choose|li: int, col: int|
                    {
                        &&& #[trigger] name_found_at(
                            rope_lines(doc.text),
                            fns@[fi as int].span.start.line - 1,
                            fns@[fi as int].span.end.line - 1,
                            fns@[fi as int].name@,
                            li,
                            col,
                        )
                        &&& name_range_fits(li, col, fns@[fi as int].name@.len() as int)
                        &&& range == spec_name_range(li, col, fns@[fi as int].name@.len() as int)
                    };
                assert(target_name_range_at(rope_lines(doc.text), decls[fi as int], li0, col0));
                assert(range == spec_name_range(li0, col0, decls[fi as int].name@.len() as int));
            }
            if editor_position_le(&range.start, &pos) && editor_position_le(&pos, &range.end) {
                Ok(Some(range))
            } else {
                Ok(None)
            }
        },
    }
}

/// Usage lists are the same over names that carry the same text.
proof fn lemma_fn_refs_name_like(calls: Seq<crate::funcs::CallInfo>, n1: CallKind, n2: CallKind)
    requires
        spec_call_kind_eq(n1, n2),
    ensures
        crate::resolve::spec_fn_refs(calls, n1) == crate::resolve::spec_fn_refs(calls, n2),
    decreases calls.len(),
{
    if calls.len() > 0 {
        lemma_fn_refs_name_like(calls.drop_last(), n1, n2);
    }
}

proof fn lemma_all_refs_name_like(fns: Seq<FunctionDecl>, n1: CallKind, n2: CallKind)
    requires
        spec_call_kind_eq(n1, n2),
    ensures
        spec_all_refs(fns, n1) == spec_all_refs(fns, n2),
    decreases fns.len(),
{
    if fns.len() > 0 {
        lemma_fn_refs_name_like(fns.last().calls@, n1, n2);
        lemma_all_refs_name_like(fns.drop_last(), n1, n2);
    }
}

/// Answer a find-references request.  A resolved call that names a
/// primitive operation or built-in construct yields every usage site of
/// that name.  A user-defined name is answered through its declaration:
/// every usage site plus the declaration's own name range; with no call
/// under the point, the same list is answered when the point lies on an
/// enclosing declaration's own name.
pub fn references_query(doc: &Document, pos: EditorPosition) -> (r: Result<
    Option<Vec<EditorRange>>,
    LspError,
>)
    ensures
        ({
            let t = spec_point_span(pos);
            let decls = spec_decls(doc.functions);
            let lines = rope_lines(doc.text);
            match r {
                Ok(opt) => match spec_related_call(decls, t) {
                    Some((fi, ci)) => match decls[fi].calls@[ci].name {
                        CallKind::Custom(n) => (match spec_find_from(decls, n@, 0) {
                            Some(ti) => opt matches Some(v) && v@.len() >= 1 && refs_converted(
                                decls,
                                CallKind::Custom(decls[ti].name),
                                v@.drop_last(),
                            ) && exists|li: int, col: int|
                                #[trigger] target_name_range_at(lines, decls[ti], li, col)
                                    && v@.last() == spec_name_range(
                                    li,
                                    col,
                                    decls[ti].name@.len() as int,
                                ),
                            None => opt is None,
                        }),
                        _ => opt matches Some(v) && refs_converted(
                            decls,
                            decls[fi].calls@[ci].name,
                            v@,
                        ),
                    },
                    None => match spec_first_enclosing(decls, t) {
                        Some(fi) => match opt {
                            Some(v) => v@.len() >= 1 && refs_converted(
                                decls,
                                CallKind::Custom(decls[fi].name),
                                v@.drop_last(),
                            ) && exists|li: int, col: int|
                                {
                                    &&& #[trigger] target_name_range_at(lines, decls[fi], li, col)
                                    &&& v@.last() == spec_name_range(
                                        li,
                                        col,
                                        decls[fi].name@.len() as int,
                                    )
                                    &&& spec_pos_within(
                                        pos,
                                        spec_name_range(li, col, decls[fi].name@.len() as int),
                                    )
                                },
                            None => exists|li: int, col: int|
                                #[trigger] target_name_range_at(lines, decls[fi], li, col)
                                    && !spec_pos_within(
                                    pos,
                                    spec_name_range(li, col, decls[fi].name@.len() as int),
                                ),
                        },
                        None => opt is None,
                    },
                },
                Err(e) => {
                    ||| (e is IntegerConversionFailed && (pos.line + 1 > usize::MAX
                        || pos.character + 1 > usize::MAX || (spec_related_call(decls, t)
                        matches Some((fi, ci)) && (!(decls[fi].calls@[ci].name is Custom)
                        && exists|x: int|
                        0 <= x < spec_all_refs(decls, decls[fi].calls@[ci].name).len()
                            && !span_convertible(
                            #[trigger] spec_all_refs(decls, decls[fi].calls@[ci].name)[x],
                        ))) || (spec_ref_target(decls, t) matches Some(ti) && (
                        decls[ti].span.start.line < 1 || decls[ti].span.end.line < 1 || (exists|
                            li: int,
                            col: int,
                        |
                            #[trigger] name_found_at(
                                lines,
                                decls[ti].span.start.line - 1,
                                decls[ti].span.end.line - 1,
                                decls[ti].name@,
                                li,
                                col,
                            ) && !name_range_fits(li, col, decls[ti].name@.len() as int)) || exists|
                            x: int,
                        |
                            0 <= x < spec_all_refs(
                                decls,
                                CallKind::Custom(decls[ti].name),
                            ).len() && !span_convertible(
                                #[trigger] spec_all_refs(
                                    decls,
                                    CallKind::Custom(decls[ti].name),
                                )[x],
                            )))))
                    ||| (e is CallNotFound && spec_first_enclosing(decls, t) is None)
                    ||| (e matches LspError::FunctionNotFound(m) && (spec_ref_target(decls, t)
                        matches Some(ti) && name_not_found(
                        lines,
                        decls[ti].span.start.line - 1,
                        decls[ti].span.end.line - 1,
                        decls[ti].name@,
                    ) && m@ == "Function with name "@ + decls[ti].name@ + " not found"@))
                },
            }
        }),
{
    let fns = decls_of(&doc.functions);
    let ghost decls = spec_decls(doc.functions);
    let token_span = match position_to_span(pos) {
        Ok(s) => s,
        Err(_) => {
            return Err(LspError::IntegerConversionFailed);
        },
    };
    proof {
        lemma_resolution_like(fns@, decls, token_span);
    }
    let related = match find_related_call(&fns, token_span) {
        Ok(opt) => opt,
        Err(e) => {
            return Err(e);
        },
    };
    let is_custom_or_none = match &related {
        Some(c) => match &c.name {
            CallKind::Custom(_) => true,
            _ => false,
        },
        None => true,
    };
    if !is_custom_or_none {
        let call = match related {
            Some(c) => c,
            None => {
                proof {
                    assert(false);
                }
                return Ok(None);
            },
        };
        let ghost gfi = spec_first_enclosing(fns@, token_span)->Some_0;
        let ghost gci = spec_related_in(fns@[gfi].calls@, token_span)->Some_0;
        proof {
            lemma_enclosing_bounds(fns@, token_span, 0);
            lemma_related_in_bounds(fns@[gfi].calls@, token_span);
            assert(spec_related_call(decls, token_span) == Some((gfi, gci)));
            assert(call_like(call, fns@[gfi].calls@[gci]));
            assert(decl_like(fns@[gfi], decls[gfi]));
            assert(call_like(fns@[gfi].calls@[gci], decls[gfi].calls@[gci]));
            lemma_all_refs_name_like(fns@, call.name, decls[gfi].calls@[gci].name);
            lemma_all_refs_like(fns@, decls, decls[gfi].calls@[gci].name);
        }
        let refs = match find_all_references(&fns, &call.name) {
            Ok(v) => v,
            Err(_) => {
                return Err(LspError::IntegerConversionFailed);
            },
        };
        return Ok(Some(refs));
    }
    // A user-defined name or no call at all: answer through the
    // declaration's own name.
    let mut ti: usize = 0;
    let mut found: bool = false;
    match &related {
        Some(c) => {
            let n = match &c.name {
                CallKind::Custom(n) => n,
                _ => {
                    proof {
                        assert(false);
                    }
                    return Ok(None);
                },
            };
            let ghost gfi = spec_first_enclosing(fns@, token_span)->Some_0;
            let ghost gci = spec_related_in(fns@[gfi].calls@, token_span)->Some_0;
            proof {
                lemma_enclosing_bounds(fns@, token_span, 0);
                lemma_related_in_bounds(fns@[gfi].calls@, token_span);
                assert(spec_related_call(decls, token_span) == Some((gfi, gci)));
                assert(call_like(*c, fns@[gfi].calls@[gci]));
                assert(decl_like(fns@[gfi], decls[gfi]));
                assert(call_like(fns@[gfi].calls@[gci], decls[gfi].calls@[gci]));
                assert(decls[gfi].calls@[gci].name matches CallKind::Custom(n2) && n2@ == n@);
                lemma_find_from_like(fns@, decls, n@, 0);
                lemma_find_from_bounds(fns@, n@, 0);
            }
            match find_decl_by_name(&fns, n.as_str()) {
                Some(i) => {
                    ti = i;
                    found = true;
                },
                None => {},
            }
            proof {
                if found {
                    assert(spec_ref_target(decls, token_span) == Some(ti as int));
                } else {
                    assert(spec_ref_target(decls, token_span) is None);
                }
            }
        },
        None => {
            proof {
                lemma_enclosing_bounds(fns@, token_span, 0);
                assert(spec_related_call(decls, token_span) is None);
            }
            match find_first_enclosing(&fns, token_span) {
                Some(i) => {
                    ti = i;
                    found = true;
                },
                None => {},
            }
            proof {
                if found {
                    assert(spec_ref_target(decls, token_span) == Some(ti as int));
                } else {
                    assert(spec_ref_target(decls, token_span) is None);
                }
            }
        },
    }
    if !found {
        return Ok(None);
    }
    proof {
        assert(spec_ref_target(decls, token_span) == Some(ti as int));
    }
    proof {
        assert(decl_like(fns@[ti as int], decls[ti as int]));
    }
    let f = &fns[ti];
    if f.span.start.line < 1 || f.span.end.line < 1 {
        return Err(LspError::IntegerConversionFailed);
    }
    let range = match find_function_name_range(f, &doc.text) {
        Ok(range) => range,
        Err(e) => {
            return Err(e);
        },
    };
    let ghost (gli, gcol) = choose|li: int, col: int|
        {
            &&& #[trigger] name_found_at(
                rope_lines(doc.text),
                fns@[ti as int].span.start.line - 1,
                fns@[ti as int].span.end.line - 1,
                fns@[ti as int].name@,
                li,
                col,
            )
            &&& name_range_fits(li, col, fns@[ti as int].name@.len() as int)
            &&& range == spec_name_range(li, col, fns@[ti as int].name@.len() as int)
        };
    proof {
        assert(target_name_range_at(rope_lines(doc.text), decls[ti as int], gli, gcol));
    }
    let within = editor_position_le(&range.start, &pos) && editor_position_le(&pos, &range.end);
    let has_name = match &related {
        Some(_) => true,
        None => false,
    };
    if within || has_name {
        let target_name = CallKind::Custom(crate::funcs::clone_string(&f.name));
        proof {
            assert(spec_call_kind_eq(target_name, CallKind::Custom(decls[ti as int].name)));
            lemma_all_refs_name_like(fns@, target_name, CallKind::Custom(decls[ti as int].name));
            lemma_all_refs_like(fns@, decls, CallKind::Custom(decls[ti as int].name));
        }
        let mut refs = match find_all_references(&fns, &target_name) {
            Ok(v) => v,
            Err(_) => {
                return Err(LspError::IntegerConversionFailed);
            },
        };
        refs.push(range);
        proof {
            assert(refs@.drop_last() =~= refs@.subrange(0, refs@.len() - 1));
            assert(refs@.last() == range);
        }
        Ok(Some(refs))
    } else {
        Ok(None)
    }
}

} // verus!
