//! The per-document analysis state.
//!
//! Every edit reprocesses the whole text: it is parsed through the
//! external grammar and, on success, checked by the external analyzer.
//! The function index is rebuilt from every successful parse; when the
//! parse fails, the previous index is kept and only the raw text is
//! replaced, so navigation keeps working over the last good parse.  At
//! most one diagnostic is published per update: none on full success,
//! one at the reported error's range otherwise.

use vstd::prelude::*;

use crate::chars::{chars_to_string, is_unicode_whitespace, push_str_chars};
use crate::comments::{get_comments_from_lines, spec_comments};
use crate::compiler::{
    analyze_program, convert_function, decl_of, parse_text, program_decls, program_functions,
    rich_error_info, spec_analysis_err_message, spec_analysis_err_span, spec_analyzes,
    spec_decls_of, spec_parse_err_message, spec_parse_err_span, spec_parses, RichErrorInfo,
};
use crate::coords::{span_convertible, spec_editor_range, EditorRange};
use crate::funcs::{
    clone_string, decl_like, functions_wf, spec_has_name, FunctionDecl, FunctionEntry, Functions,
};
use crate::textbuf::{rope_from_str, rope_lines, rope_split};

verus! {

/// One open document: its function index and its raw text.
#[derive(Debug)]
pub struct Document {
    /// The indexed top-level functions with their documentation.
    pub functions: Functions,
    /// The raw text.
    pub text: ropey::Rope,
}

/// An index entry as a fresh parse produces it: keyed by the function's
/// own name, with the documentation gathered from the lines directly
/// above the declaration.
pub open spec fn entry_ok(lines: Seq<Seq<char>>, e: FunctionEntry) -> bool {
    &&& e.name@ == e.func.name@
    &&& e.func.span.start.line >= 1
    &&& e.func.span.start.line - 1 <= u32::MAX ==> e.doc@ == spec_comments(
        lines,
        e.func.span.start.line - 1,
    )
    &&& e.func.span.start.line - 1 > u32::MAX ==> e.doc@ == Seq::<char>::empty()
}

/// Every declaration of the list is indexed under its name.
pub open spec fn index_covers(m: Seq<FunctionEntry>, decls: Seq<FunctionDecl>) -> bool {
    forall|j: int| 0 <= j < decls.len() ==> spec_has_name(m, (#[trigger] decls[j]).name@)
}

/// Entry `i` of the index holds the last declaration carrying its name.
pub open spec fn entry_is_last_decl(
    m: Seq<FunctionEntry>,
    decls: Seq<FunctionDecl>,
    i: int,
) -> bool {
    exists|j: int|
        {
            &&& 0 <= j < decls.len()
            &&& (#[trigger] decls[j]).name@ == m[i].name@
            &&& decl_like(m[i].func, decls[j])
            &&& forall|k: int| j < k < decls.len() ==> (#[trigger] decls[k]).name@ != m[i].name@
        }
}

/// No two declarations share a name.
pub open spec fn distinct_names(decls: Seq<FunctionDecl>) -> bool {
    forall|i: int, j: int|
        0 <= i < j < decls.len() ==> (#[trigger] decls[i]).name@ != (#[trigger] decls[j]).name@
}

/// The index is what inserting the declarations in order yields: every
/// declaration is present under its name, every entry holds the last
/// declaration of its name, and when the names are distinct — the
/// analyzable case — the index lists the declarations one to one, in
/// source order.
pub open spec fn index_models(m: Seq<FunctionEntry>, decls: Seq<FunctionDecl>) -> bool {
    &&& index_covers(m, decls)
    &&& forall|i: int| 0 <= i < m.len() ==> #[trigger] entry_is_last_decl(m, decls, i)
    &&& (distinct_names(decls) ==> m.len() == decls.len() && (forall|i: int|
        0 <= i < m.len() ==> (#[trigger] m[i]).name@ == decls[i].name@ && decl_like(
            m[i].func,
            decls[i],
        )))
}

/// A document as a fresh parse of `text` produces it: the rope holds
/// the text's lines, the index is well-formed with every entry
/// gathered from those lines, and the index holds exactly the text's
/// parsed function declarations.
pub open spec fn document_ok(d: Document, text: Seq<char>) -> bool {
    &&& rope_lines(d.text) == rope_split(text)
    &&& functions_wf(d.functions)
    &&& forall|i: int|
        0 <= i < d.functions.map@.len() ==> entry_ok(rope_split(text), #[trigger] d.functions.map@[i])
    &&& index_models(d.functions.map@, spec_decls_of(text))
}

/// Build the document for a parsed program: index every top-level
/// function under its name, in source order with a later declaration
/// replacing an earlier one of the same name, and with the
/// documentation gathered from the lines directly above each
/// declaration.
pub fn create_document(program: &simplicityhl::parse::Program, text: &str) -> (d: Document)
    ensures
        rope_lines(d.text) == rope_split(text@),
        functions_wf(d.functions),
        forall|i: int|
            0 <= i < d.functions.map@.len() ==> entry_ok(
                rope_split(text@),
                #[trigger] d.functions.map@[i],
            ),
        index_models(d.functions.map@, program_decls(*program)),
{
    let ghost pd = program_decls(*program);
    let rope = rope_from_str(text);
    let mut functions = Functions::new();
    let decls = program_functions(program);
    let mut i: usize = 0;
    proof {
        assert(pd.take(0) =~= Seq::<FunctionDecl>::empty());
    }
    while i < decls.len()
        invariant
            rope_lines(rope) == rope_split(text@),
            functions_wf(functions),
            forall|j: int|
                0 <= j < functions.map@.len() ==> entry_ok(
                    rope_split(text@),
                    #[trigger] functions.map@[j],
                ),
            pd == program_decls(*program),
            decls@.len() == pd.len(),
            forall|k: int| 0 <= k < decls@.len() ==> decl_of(#[trigger] decls@[k]) == pd[k],
            i <= decls@.len(),
            index_covers(functions.map@, pd.take(i as int)),
            forall|e: int|
                0 <= e < functions.map@.len() ==> #[trigger] entry_is_last_decl(
                    functions.map@,
                    pd.take(i as int),
                    e,
                ),
            distinct_names(pd) ==> functions.map@.len() == i && (forall|e: int|
                0 <= e < i ==> (#[trigger] functions.map@[e]).name@ == pd[e].name@ && decl_like(
                    functions.map@[e].func,
                    pd[e],
                )),
        decreases decls@.len() - i,
    {
        let func = convert_function(&decls[i]);
        let ghost d = pd[i as int];
        proof {
            assert(decl_like(func, d));
        }
        let start_line0 = func.span.start.line - 1;
        let doc = if start_line0 <= u32::MAX as usize {
            get_comments_from_lines(start_line0 as u32, &rope)
        } else {
            String::new()
        };
        let name = clone_string(&func.name);
        let ghost m0 = functions.map@;
        let ghost entry = FunctionEntry { name: name, func: func, doc: doc };
        functions.insert(name, func, doc);
        proof {
            let m1 = functions.map@;
            assert(entry.name@ == d.name@);
            lemma_index_step(m0, m1, pd, i as int, entry, d);
        }
        i = i + 1;
    }
    proof {
        assert(pd.take(decls@.len() as int) =~= pd);
    }
    Document { functions, text: rope }
}

/// One insert step preserves the index model: inserting the declaration
/// at position `i` under its own name extends the model from the first
/// `i` declarations to the first `i + 1`.
proof fn lemma_index_step(
    m0: Seq<FunctionEntry>,
    m1: Seq<FunctionEntry>,
    pd: Seq<FunctionDecl>,
    i: int,
    entry: FunctionEntry,
    d: FunctionDecl,
)
    requires
        0 <= i < pd.len(),
        d == pd[i],
        decl_like(entry.func, d),
        entry.name@ == d.name@,
        forall|i1: int, j1: int|
            0 <= i1 < j1 < m0.len() ==> (#[trigger] m0[i1]).name@ != (#[trigger] m0[j1]).name@,
        index_covers(m0, pd.take(i)),
        forall|e: int| 0 <= e < m0.len() ==> #[trigger] entry_is_last_decl(m0, pd.take(i), e),
        distinct_names(pd) ==> m0.len() == i && (forall|e: int|
            0 <= e < i ==> (#[trigger] m0[e]).name@ == pd[e].name@ && decl_like(m0[e].func, pd[e])),
        spec_has_name(m0, entry.name@) ==> exists|ix: int|
            {
                &&& 0 <= ix < m0.len()
                &&& (#[trigger] m0[ix]).name@ == entry.name@
                &&& m1 == m0.update(ix, entry)
            },
        !spec_has_name(m0, entry.name@) ==> m1 == m0.push(entry),
    ensures
        index_covers(m1, pd.take(i + 1)),
        forall|e: int| 0 <= e < m1.len() ==> #[trigger] entry_is_last_decl(m1, pd.take(i + 1), e),
        distinct_names(pd) ==> m1.len() == i + 1 && (forall|e: int|
            0 <= e < i + 1 ==> (#[trigger] m1[e]).name@ == pd[e].name@ && decl_like(
                m1[e].func,
                pd[e],
            )),
{
    let p0 = pd.take(i);
    let p1 = pd.take(i + 1);
    assert(p1.drop_last() =~= p0);
    assert(p1[i] == d);
    if spec_has_name(m0, entry.name@) {
        let ix = choose|ix: int|
            {
                &&& 0 <= ix < m0.len()
                &&& (#[trigger] m0[ix]).name@ == entry.name@
                &&& m1 == m0.update(ix, entry)
            };
        assert(m1[ix] == entry);
        assert forall|j: int| 0 <= j < p1.len() implies spec_has_name(
            m1,
            (#[trigger] p1[j]).name@,
        ) by {
            if j == i {
                assert(m1[ix].name@ == p1[j].name@);
            } else {
                assert(spec_has_name(m0, (p0[j]).name@));
                let w = choose|w: int| 0 <= w < m0.len() && (#[trigger] m0[w]).name@ == p0[j].name@;
                assert(m1[w].name@ == m0[w].name@);
            }
        }
        assert forall|e: int| 0 <= e < m1.len() implies #[trigger] entry_is_last_decl(
            m1,
            p1,
            e,
        ) by {
            if e == ix {
                assert(p1[i].name@ == m1[ix].name@);
                assert(decl_like(m1[ix].func, p1[i]));
                assert(entry_is_last_decl(m1, p1, e));
            } else {
                assert(m1[e] == m0[e]);
                assert(entry_is_last_decl(m0, p0, e));
                let j0 = choose|j0: int|
                    {
                        &&& 0 <= j0 < p0.len()
                        &&& (#[trigger] p0[j0]).name@ == m0[e].name@
                        &&& decl_like(m0[e].func, p0[j0])
                        &&& forall|k: int|
                            j0 < k < p0.len() ==> (#[trigger] p0[k]).name@ != m0[e].name@
                    };
                assert(m0[e].name@ != m0[ix].name@);
                assert forall|k: int| j0 < k < p1.len() implies (#[trigger] p1[k]).name@
                    != m1[e].name@ by {
                    if k < i {
                        assert(p1[k] == p0[k]);
                    } else {
                        assert(p1[k].name@ == entry.name@);
                    }
                }
                assert(entry_is_last_decl(m1, p1, e));
            }
        }
        if distinct_names(pd) {
            let w = choose|w: int| 0 <= w < m0.len() && (#[trigger] m0[w]).name@ == entry.name@;
            assert(m0[w].name@ == pd[w].name@);
            assert(pd[w].name@ != pd[i].name@);
            assert(false);
        }
    } else {
        let last = m0.len() as int;
        assert(m1[last] == entry);
        assert forall|j: int| 0 <= j < p1.len() implies spec_has_name(
            m1,
            (#[trigger] p1[j]).name@,
        ) by {
            if j == i {
                assert(m1[last].name@ == p1[j].name@);
            } else {
                assert(spec_has_name(m0, (p0[j]).name@));
                let w = choose|w: int| 0 <= w < m0.len() && (#[trigger] m0[w]).name@ == p0[j].name@;
                assert(m1[w].name@ == m0[w].name@);
            }
        }
        assert forall|e: int| 0 <= e < m1.len() implies #[trigger] entry_is_last_decl(
            m1,
            p1,
            e,
        ) by {
            if e == last {
                assert(p1[i].name@ == m1[last].name@);
                assert(decl_like(m1[last].func, p1[i]));
                assert(entry_is_last_decl(m1, p1, e));
            } else {
                assert(m1[e] == m0[e]);
                assert(entry_is_last_decl(m0, p0, e));
                let j0 = choose|j0: int|
                    {
                        &&& 0 <= j0 < p0.len()
                        &&& (#[trigger] p0[j0]).name@ == m0[e].name@
                        &&& decl_like(m0[e].func, p0[j0])
                        &&& forall|k: int|
                            j0 < k < p0.len() ==> (#[trigger] p0[k]).name@ != m0[e].name@
                    };
                assert(m0[e].name@ != entry.name@);
                assert forall|k: int| j0 < k < p1.len() implies (#[trigger] p1[k]).name@
                    != m1[e].name@ by {
                    if k < i {
                        assert(p1[k] == p0[k]);
                    } else {
                        assert(p1[k].name@ == entry.name@);
                    }
                }
                assert(entry_is_last_decl(m1, p1, e));
            }
        }
    }
}

/// Parse `text` through the external grammar and analyzer: the first
/// positioned error, if any, and the freshly built document, present
/// exactly when the grammar accepts the text.  The error is absent
/// exactly when the text parses and analyzes; otherwise it carries the
/// first reported error's span and rendered message.
pub fn parse_program(text: &str) -> (r: (Option<RichErrorInfo>, Option<Document>))
    ensures
        r.0 is None <==> (spec_parses(text@) && spec_analyzes(text@)),
        r.1 is Some <==> spec_parses(text@),
        r.1 matches Some(d) ==> document_ok(d, text@),
        r.0 matches Some(e) ==> {
            &&& e.span.start.line >= 1 && e.span.start.col >= 1 && e.span.end.line >= 1
                && e.span.end.col >= 1
            &&& if spec_parses(text@) {
                e.span == spec_analysis_err_span(text@) && e.message@ == spec_analysis_err_message(
                    text@,
                )
            } else {
                e.span == spec_parse_err_span(text@) && e.message@ == spec_parse_err_message(text@)
            }
        },
{
    match parse_text(text) {
        Err(e) => (Some(rich_error_info(&e)), None),
        Ok(program) => {
            let err = match analyze_program(&program, text) {
                Some(e) => Some(rich_error_info(&e)),
                None => None,
            };
            (err, Some(create_document(&program, text)))
        },
    }
}

/// What an update decided: which diagnostics to publish, if any.
#[derive(Debug)]
pub enum DocumentUpdate {
    /// The text parsed and analyzed: publish an empty diagnostics list.
    Clean,
    /// The text parsed but failed analysis: publish one diagnostic.
    AnalysisIssue { range: EditorRange, message: String },
    /// The text failed to parse: publish one diagnostic.
    ParseIssue { range: EditorRange, message: String },
    /// The error's span did not convert: log and publish nothing.
    Dropped { log: String },
}

/// Apply one parse outcome to a document slot and decide what to
/// publish.  The freshly parsed document, when there is one, replaces
/// the slot wholesale; when the parse failed, only the raw text of an
/// already open document is replaced and its function index is kept.
pub fn apply_update(
    slot: &mut Option<Document>,
    text: &str,
    err: Option<RichErrorInfo>,
    parsed: Option<Document>,
) -> (r: DocumentUpdate)
    ensures
        parsed matches Some(d) ==> ((*final(slot)) matches Some(nd) && nd == d),
        parsed is None ==> match *old(slot) {
            Some(od) => (*final(slot)) matches Some(nd) && nd.functions == od.functions
                && rope_lines(nd.text) == rope_split(text@),
            None => (*final(slot)) is None,
        },
        match err {
            None => r is Clean,
            Some(e) => {
                if span_convertible(e.span) {
                    if parsed is Some {
                        r matches DocumentUpdate::AnalysisIssue { range, message } && range
                            == crate::coords::spec_editor_range(e.span) && message@ == e.message@
                    } else {
                        r matches DocumentUpdate::ParseIssue { range, message } && range
                            == crate::coords::spec_editor_range(e.span) && message@ == e.message@
                    }
                } else {
                    r matches DocumentUpdate::Dropped { .. }
                }
            },
        },
{
    let parsed_some = match &parsed {
        Some(_) => true,
        None => false,
    };
    match parsed {
        Some(d) => {
            *slot = Some(d);
        },
        None => {
            match slot {
                Some(od) => {
                    od.text = rope_from_str(text);
                },
                None => {},
            }
        },
    }
    match err {
        None => DocumentUpdate::Clean,
        Some(e) => {
            if e.span.start.line >= 1 && e.span.start.col >= 1 && e.span.end.line >= 1
                && e.span.end.col >= 1 {
                match crate::coords::span_to_positions(&e.span) {
                    Ok((start, end)) => {
                        let range = EditorRange { start, end };
                        if parsed_some {
                            DocumentUpdate::AnalysisIssue { range, message: e.message }
                        } else {
                            DocumentUpdate::ParseIssue { range, message: e.message }
                        }
                    },
                    Err(conv) => {
                        let mut log: Vec<char> = Vec::new();
                        push_str_chars(&mut log, "Catch error while parsing span: ");
                        let m = conv.message();
                        push_str_chars(&mut log, m.as_str());
                        DocumentUpdate::Dropped { log: chars_to_string(&log) }
                    },
                }
            } else {
                let mut log: Vec<char> = Vec::new();
                push_str_chars(&mut log, "Catch error while parsing span: ");
                DocumentUpdate::Dropped { log: chars_to_string(&log) }
            }
        },
    }
}

/// Reprocess a document's text after an edit: parse, analyze, update
/// the slot, and decide what to publish.  On full success the slot
/// holds the freshly indexed document and nothing is reported; on an
/// analysis failure the slot holds the freshly indexed document and one
/// diagnostic is reported at the analysis error; on a parse failure an
/// open document keeps its function index, only its raw text is
/// replaced, and one diagnostic is reported at the parse error.  A
/// diagnostic is dropped only when its error's span does not convert
/// to editor coordinates.
pub fn update_document(slot: &mut Option<Document>, text: &str) -> (r: DocumentUpdate)
    ensures
        (spec_parses(text@) && spec_analyzes(text@)) <==> r is Clean,
        spec_parses(text@) ==> ((*final(slot)) matches Some(d) && document_ok(d, text@)),
        !spec_parses(text@) ==> match *old(slot) {
            Some(od) => (*final(slot)) matches Some(nd) && nd.functions == od.functions
                && rope_lines(nd.text) == rope_split(text@),
            None => (*final(slot)) is None,
        },
        (spec_parses(text@) && !spec_analyzes(text@) && span_convertible(
            spec_analysis_err_span(text@),
        )) <==> r matches DocumentUpdate::AnalysisIssue { .. },
        r matches DocumentUpdate::AnalysisIssue { range, message } ==> range == spec_editor_range(
            spec_analysis_err_span(text@),
        ) && message@ == spec_analysis_err_message(text@),
        (!spec_parses(text@) && span_convertible(spec_parse_err_span(text@)))
            <==> r matches DocumentUpdate::ParseIssue { .. },
        r matches DocumentUpdate::ParseIssue { range, message } ==> range == spec_editor_range(
            spec_parse_err_span(text@),
        ) && message@ == spec_parse_err_message(text@),
        r is Dropped <==> ((!spec_parses(text@) && !span_convertible(spec_parse_err_span(text@)))
            || (spec_parses(text@) && !spec_analyzes(text@) && !span_convertible(
            spec_analysis_err_span(text@),
        ))),
{
    let (err, parsed) = parse_program(text);
    apply_update(slot, text, err, parsed)
}

/// Whether the text holds a run of more than three opening brackets,
/// counting only non-whitespace characters between them.  The external
/// grammar is slow on such inputs; callers may use this to reject them
/// before parsing.
pub open spec fn spec_slow_from(s: Seq<char>, i: int, count: int) -> bool
    decreases s.len() - i,
{
    if i < 0 || i >= s.len() {
        false
    } else {
        let c = s[i];
        if c == '(' || c == '[' || c == '{' {
            if count + 1 > 3 {
                true
            } else {
                spec_slow_from(s, i + 1, count + 1)
            }
        } else if !is_unicode_whitespace(c) {
            spec_slow_from(s, i + 1, 0)
        } else {
            spec_slow_from(s, i + 1, count)
        }
    }
}

pub open spec fn spec_slow_input(s: Seq<char>) -> bool {
    spec_slow_from(s, 0, 0)
}

/// Detect inputs with more than three consecutive opening brackets,
/// ignoring whitespace between them.
pub fn slow_input(program_text: &str) -> (r: bool)
    ensures
        r == spec_slow_input(program_text@),
{
    let v = crate::chars::chars_of(program_text);
    let mut count: usize = 0;
    let mut i: usize = 0;
    while i < v.len()
        invariant
            i <= v@.len(),
            v@ == program_text@,
            count <= 3,
            spec_slow_input(program_text@) == spec_slow_from(v@, i as int, count as int),
        decreases v@.len() - i,
    {
        let c = v[i];
        if c == '(' || c == '[' || c == '{' {
            count = count + 1;
            if count > 3 {
                return true;
            }
        } else if !c.is_whitespace() {
            count = 0;
        }
        i = i + 1;
    }
    false
}

} // verus!
