//! Completion candidates and their selection.
//!
//! The provider holds the precomputed candidate lists: the primitive
//! operations, the built-in constructs, the namespace stubs and the
//! cast table.  A request classifies the text before the cursor and the
//! classification selects the candidate set: the primitive-operation
//! namespace yields the primitive catalog alone, an assignment yields
//! the matching cast or the whole cast table, a closing cast yields the
//! single cast entry, a suppressed trigger yields nothing, and anything
//! else yields the document's own functions with the built-ins and the
//! namespace stubs.

use vstd::prelude::*;
use vstd::string::StringExecFns;

use crate::casts::{cast_lookup, cast_pairs, spec_cast_of, spec_cast_pairs};
use crate::chars::{chars_to_string, push_str_chars, str_eq};
use crate::builtins::get_builtin_functions;
use crate::builtins::{
    array_fold_template, assert_template, debug_template, fold_template, for_while_template,
    is_none_template, panic_template, type_cast_template, unwrap_left_template, unwrap_template,
    unwrap_right_template,
};
use crate::funcs::{function_to_template, FunctionDecl, Functions};
use crate::template::{
    spec_insert_text, spec_signature, views_of_strings, FunctionTemplate,
};
use crate::tokens::{parse, spec_last_token, CompletionType, TokenClass};

verus! {

/// How a completion candidate is displayed.
#[derive(Debug, Clone, Copy, PartialEq, Eq, Structural)]
pub enum EntryKind {
    Function,
    Snippet,
    Module,
}

/// How a candidate's insert text is interpreted by the editor.
#[derive(Debug, Clone, Copy, PartialEq, Eq, Structural)]
pub enum InsertFormat {
    PlainText,
    Snippet,
}

/// One completion candidate.
#[derive(Debug)]
pub struct CompletionEntry {
    /// Label shown in the candidate list.
    pub label: String,
    /// Display kind.
    pub kind: EntryKind,
    /// Short signature or description line.
    pub detail: String,
    /// Markdown documentation, if any.
    pub documentation: Option<String>,
    /// Text inserted on acceptance.
    pub insert_text: String,
    /// How the insert text is interpreted.
    pub insert_format: InsertFormat,
}

/// Two candidates carry the same information.
pub open spec fn entry_like(a: CompletionEntry, b: CompletionEntry) -> bool {
    &&& a.label@ == b.label@
    &&& a.kind == b.kind
    &&& a.detail@ == b.detail@
    &&& match (a.documentation, b.documentation) {
        (Some(x), Some(y)) => x@ == y@,
        (None, None) => true,
        _ => false,
    }
    &&& a.insert_text@ == b.insert_text@
    &&& a.insert_format == b.insert_format
}

/// Candidate lists carrying the same information, element by element.
pub open spec fn entries_like(a: Seq<CompletionEntry>, b: Seq<CompletionEntry>) -> bool {
    a.len() == b.len() && forall|i: int| 0 <= i < a.len() ==> entry_like(#[trigger] a[i], b[i])
}

/// Two templates carry the same information.
pub open spec fn template_like(a: FunctionTemplate, b: FunctionTemplate) -> bool {
    &&& a.display_name@ == b.display_name@
    &&& views_of_strings(a.generics@) == views_of_strings(b.generics@)
    &&& views_of_strings(a.args@) == views_of_strings(b.args@)
    &&& a.return_type@ == b.return_type@
    &&& a.description@ == b.description@
    &&& a.snippet@ == b.snippet@
}

/// The candidate a template renders to: the template's own label,
/// signature, documentation and insert snippet; the cast template is
/// displayed as a snippet because its call shape differs from an
/// ordinary call.
pub open spec fn entry_of_template(t: FunctionTemplate, e: CompletionEntry) -> bool {
    &&& e.label@ == t.display_name@
    &&& e.kind == (if t.display_name@ == "into"@ {
        EntryKind::Snippet
    } else {
        EntryKind::Function
    })
    &&& e.detail@ == spec_signature(t)
    &&& (e.documentation matches Some(d) && d@ == t.description@)
    &&& e.insert_text@ == spec_insert_text(t)
    &&& e.insert_format == InsertFormat::Snippet
}

/// Render a template to a completion candidate.
pub fn template_to_completion(t: &FunctionTemplate) -> (e: CompletionEntry)
    requires
        t.args@.len() + t.generics@.len() <= usize::MAX,
    ensures
        entry_of_template(*t, e),
{
    let kind = if str_eq(t.display_name.as_str(), "into") {
        EntryKind::Snippet
    } else {
        EntryKind::Function
    };
    CompletionEntry {
        label: t.display_name.clone(),
        kind,
        detail: t.get_signature(),
        documentation: Some(t.description.clone()),
        insert_text: t.get_insert_text(),
        insert_format: InsertFormat::Snippet,
    }
}

/// The candidate a namespace stub renders to.
pub open spec fn module_entry_ok(name: Seq<char>, detail: Seq<char>, e: CompletionEntry) -> bool {
    &&& e.label@ == name
    &&& e.kind == EntryKind::Module
    &&& e.detail@ == detail
    &&& e.documentation is None
    &&& e.insert_text@ == name
    &&& e.insert_format == InsertFormat::PlainText
}

/// Render a namespace stub to a completion candidate.
pub fn module_to_completion(module: String, detail: String) -> (e: CompletionEntry)
    ensures
        module_entry_ok(module@, detail@, e),
{
    CompletionEntry {
        label: module.clone(),
        kind: EntryKind::Module,
        detail,
        documentation: None,
        insert_text: module,
        insert_format: InsertFormat::PlainText,
    }
}

/// The candidate of one cast-table pair: cast into `to` from `from`.
pub open spec fn cast_entry_ok(to: Seq<char>, from: Seq<char>, e: CompletionEntry) -> bool {
    &&& e.label@ == to + " <- "@ + from
    &&& e.kind == EntryKind::Function
    &&& e.detail@ == "Cast into type `"@ + to + "`"@
    &&& e.documentation is None
    &&& e.insert_text@ == from + ">::into(${1:"@ + from + "})"@
    &&& e.insert_format == InsertFormat::Snippet
}

/// Render one cast-table pair to a completion candidate.
pub fn cast_entry(to: &str, from: &str) -> (e: CompletionEntry)
    ensures
        cast_entry_ok(to@, from@, e),
{
    let mut label: Vec<char> = Vec::new();
    push_str_chars(&mut label, to);
    push_str_chars(&mut label, " <- ");
    push_str_chars(&mut label, from);
    let mut detail: Vec<char> = Vec::new();
    push_str_chars(&mut detail, "Cast into type `");
    push_str_chars(&mut detail, to);
    push_str_chars(&mut detail, "`");
    let mut insert: Vec<char> = Vec::new();
    push_str_chars(&mut insert, from);
    push_str_chars(&mut insert, ">::into(${1:");
    push_str_chars(&mut insert, from);
    push_str_chars(&mut insert, "})");
    CompletionEntry {
        label: chars_to_string(&label),
        kind: EntryKind::Function,
        detail: chars_to_string(&detail),
        documentation: None,
        insert_text: chars_to_string(&insert),
        insert_format: InsertFormat::Snippet,
    }
}

/// The single candidate of a closing cast.
pub open spec fn into_entry_ok(e: CompletionEntry) -> bool {
    &&& e.label@ == "into"@
    &&& e.kind == EntryKind::Function
    &&& e.detail@ == "Cast into type"@
    &&& e.documentation is None
    &&& e.insert_text@ == "into(${1:type})"@
    &&& e.insert_format == InsertFormat::Snippet
}

fn into_entry() -> (e: CompletionEntry)
    ensures
        into_entry_ok(e),
{
    CompletionEntry {
        label: String::from_str("into"),
        kind: EntryKind::Function,
        detail: String::from_str("Cast into type"),
        documentation: None,
        insert_text: String::from_str("into(${1:type})"),
        insert_format: InsertFormat::Snippet,
    }
}

pub fn clone_entry(e: &CompletionEntry) -> (r: CompletionEntry)
    ensures
        entry_like(r, *e),
{
    CompletionEntry {
        label: e.label.clone(),
        kind: e.kind,
        detail: e.detail.clone(),
        documentation: match &e.documentation {
            Some(d) => Some(d.clone()),
            None => None,
        },
        insert_text: e.insert_text.clone(),
        insert_format: e.insert_format,
    }
}

pub fn clone_entries(v: &Vec<CompletionEntry>) -> (r: Vec<CompletionEntry>)
    ensures
        entries_like(r@, v@),
{
    let mut r: Vec<CompletionEntry> = Vec::new();
    let mut i: usize = 0;
    while i < v.len()
        invariant
            i <= v@.len(),
            r@.len() == i,
            forall|j: int| 0 <= j < i ==> entry_like(#[trigger] r@[j], v@[j]),
        decreases v@.len() - i,
    {
        r.push(clone_entry(&v[i]));
        i = i + 1;
    }
    r
}

/// The template a user-defined function renders to.
pub open spec fn user_template_ok(f: FunctionDecl, doc: Seq<char>, t: FunctionTemplate) -> bool {
    &&& t.display_name@ == f.name@
    &&& t.generics@.len() == 0
    &&& t.args@.len() == f.params@.len()
    &&& views_of_strings(t.args@) == views_of_strings(f.params@)
    &&& t.return_type@ == match f.ret {
        Some(r) => r@,
        None => "()"@,
    }
    &&& t.description@ == doc
    &&& t.snippet@ == f.name@
}

/// The candidate a user-defined function renders to.
pub open spec fn user_entry_ok(f: FunctionDecl, doc: Seq<char>, e: CompletionEntry) -> bool {
    exists|t: FunctionTemplate| user_template_ok(f, doc, t) && entry_of_template(t, e)
}

/// The precomputed candidate lists.
#[derive(Debug)]
pub struct CompletionProvider {
    /// The primitive-operation templates, for hover rendering.
    pub jet_catalog: Vec<FunctionTemplate>,
    /// The primitive-operation candidates.
    pub jets: Vec<CompletionEntry>,
    /// The built-in construct candidates.
    pub builtin: Vec<CompletionEntry>,
    /// The namespace stub candidates.
    pub modules: Vec<CompletionEntry>,
    /// The cast-table candidates.
    pub type_casts: Vec<CompletionEntry>,
}

/// The built-in candidate list renders the fixed catalog, in its fixed
/// order.
pub open spec fn builtin_entries_ok(es: Seq<CompletionEntry>) -> bool {
    &&& es.len() == 11
    &&& exists|t: FunctionTemplate| unwrap_left_template("T"@, t) && entry_of_template(t, es[0])
    &&& exists|t: FunctionTemplate| unwrap_right_template("T"@, t) && entry_of_template(t, es[1])
    &&& exists|t: FunctionTemplate| unwrap_template(t) && entry_of_template(t, es[2])
    &&& exists|t: FunctionTemplate| is_none_template("T"@, t) && entry_of_template(t, es[3])
    &&& exists|t: FunctionTemplate| assert_template(t) && entry_of_template(t, es[4])
    &&& exists|t: FunctionTemplate| debug_template(t) && entry_of_template(t, es[5])
    &&& exists|t: FunctionTemplate| panic_template(t) && entry_of_template(t, es[6])
    &&& exists|t: FunctionTemplate| fold_template(t) && entry_of_template(t, es[7])
    &&& exists|t: FunctionTemplate| array_fold_template(t) && entry_of_template(t, es[8])
    &&& exists|t: FunctionTemplate| for_while_template(t) && entry_of_template(t, es[9])
    &&& exists|t: FunctionTemplate| type_cast_template(t) && entry_of_template(t, es[10])
}

/// The namespace stub candidates, in their fixed order.
pub open spec fn module_entries_ok(es: Seq<CompletionEntry>) -> bool {
    &&& es.len() == 3
    &&& module_entry_ok("jet"@, "Module which contains jets"@, es[0])
    &&& module_entry_ok("param"@, "Module which contains parameters"@, es[1])
    &&& module_entry_ok("witness"@, "Module which contains witnesses"@, es[2])
}

/// The cast-table candidates, in table order.
pub open spec fn cast_entries_ok(es: Seq<CompletionEntry>) -> bool {
    &&& es.len() == spec_cast_pairs().len()
    &&& forall|i: int|
        0 <= i < es.len() ==> cast_entry_ok(
            spec_cast_pairs()[i].0,
            spec_cast_pairs()[i].1,
            #[trigger] es[i],
        )
}

/// A provider holds consistent candidate lists built from the given
/// primitive-operation catalog.
pub open spec fn provider_ok(p: CompletionProvider, jets: Seq<FunctionTemplate>) -> bool {
    &&& p.jet_catalog@.len() == jets.len()
    &&& forall|i: int|
        0 <= i < jets.len() ==> template_like(#[trigger] p.jet_catalog@[i], jets[i])
    &&& p.jets@.len() == jets.len()
    &&& forall|i: int| 0 <= i < jets.len() ==> entry_of_template(jets[i], #[trigger] p.jets@[i])
    &&& builtin_entries_ok(p.builtin@)
    &&& module_entries_ok(p.modules@)
    &&& cast_entries_ok(p.type_casts@)
}

fn clone_string_vec(v: &Vec<String>) -> (r: Vec<String>)
    ensures
        r@.len() == v@.len(),
        forall|i: int| 0 <= i < v@.len() ==> (#[trigger] r@[i])@ == v@[i]@,
        views_of_strings(r@) == views_of_strings(v@),
{
    let r = crate::funcs::clone_strings(v);
    proof {
        assert(views_of_strings(r@) =~= views_of_strings(v@));
    }
    r
}

fn clone_template(t: &FunctionTemplate) -> (r: FunctionTemplate)
    ensures
        template_like(r, *t),
{
    FunctionTemplate {
        display_name: t.display_name.clone(),
        generics: clone_string_vec(&t.generics),
        args: clone_string_vec(&t.args),
        return_type: t.return_type.clone(),
        description: t.description.clone(),
        snippet: t.snippet.clone(),
    }
}

impl CompletionProvider {
    /// Build the provider from the primitive-operation catalog: render
    /// the primitive operations, the built-in constructs, the namespace
    /// stubs and the cast table to candidates.
    pub fn new(jets: Vec<FunctionTemplate>) -> (p: CompletionProvider)
        requires
            forall|i: int|
                0 <= i < jets@.len() ==> (#[trigger] jets@[i]).args@.len()
                    + jets@[i].generics@.len() <= usize::MAX,
        ensures
            provider_ok(p, jets@),
    {
        let mut jet_catalog: Vec<FunctionTemplate> = Vec::new();
        let mut jet_entries: Vec<CompletionEntry> = Vec::new();
        let mut i: usize = 0;
        while i < jets.len()
            invariant
                i <= jets@.len(),
                forall|k: int|
                    0 <= k < jets@.len() ==> (#[trigger] jets@[k]).args@.len()
                        + jets@[k].generics@.len() <= usize::MAX,
                jet_catalog@.len() == i,
                forall|k: int|
                    0 <= k < i ==> template_like(#[trigger] jet_catalog@[k], jets@[k]),
                jet_entries@.len() == i,
                forall|k: int|
                    0 <= k < i ==> entry_of_template(jets@[k], #[trigger] jet_entries@[k]),
            decreases jets@.len() - i,
        {
            jet_entries.push(template_to_completion(&jets[i]));
            jet_catalog.push(clone_template(&jets[i]));
            i = i + 1;
        }
        let builtins = get_builtin_functions();
        let mut builtin_entries: Vec<CompletionEntry> = Vec::new();
        builtin_entries.push(template_to_completion(&builtins[0]));
        builtin_entries.push(template_to_completion(&builtins[1]));
        builtin_entries.push(template_to_completion(&builtins[2]));
        builtin_entries.push(template_to_completion(&builtins[3]));
        builtin_entries.push(template_to_completion(&builtins[4]));
        builtin_entries.push(template_to_completion(&builtins[5]));
        builtin_entries.push(template_to_completion(&builtins[6]));
        builtin_entries.push(template_to_completion(&builtins[7]));
        builtin_entries.push(template_to_completion(&builtins[8]));
        builtin_entries.push(template_to_completion(&builtins[9]));
        builtin_entries.push(template_to_completion(&builtins[10]));
        let mut module_entries: Vec<CompletionEntry> = Vec::new();
        module_entries.push(
            module_to_completion(
                String::from_str("jet"),
                String::from_str("Module which contains jets"),
            ),
        );
        module_entries.push(
            module_to_completion(
                String::from_str("param"),
                String::from_str("Module which contains parameters"),
            ),
        );
        module_entries.push(
            module_to_completion(
                String::from_str("witness"),
                String::from_str("Module which contains witnesses"),
            ),
        );
        let pairs = cast_pairs();
        let mut cast_entries: Vec<CompletionEntry> = Vec::new();
        let mut j: usize = 0;
        while j < pairs.len()
            invariant
                j <= pairs@.len(),
                pairs@.len() == spec_cast_pairs().len(),
                forall|k: int|
                    0 <= k < pairs@.len() ==> (#[trigger] pairs@[k]).0@ == spec_cast_pairs()[k].0
                        && pairs@[k].1@ == spec_cast_pairs()[k].1,
                cast_entries@.len() == j,
                forall|k: int|
                    0 <= k < j ==> cast_entry_ok(
                        spec_cast_pairs()[k].0,
                        spec_cast_pairs()[k].1,
                        #[trigger] cast_entries@[k],
                    ),
            decreases pairs@.len() - j,
        {
            let e = cast_entry(pairs[j].0.as_str(), pairs[j].1.as_str());
            cast_entries.push(e);
            j = j + 1;
        }
        CompletionProvider {
            jet_catalog,
            jets: jet_entries,
            builtin: builtin_entries,
            modules: module_entries,
            type_casts: cast_entries,
        }
    }

    /// Render the document's own functions to candidates, in index
    /// order.
    pub fn get_function_completions(functions: &Functions) -> (r: Vec<CompletionEntry>)
        ensures
            r@.len() == functions.map@.len(),
            forall|i: int|
                0 <= i < r@.len() ==> user_entry_ok(
                    functions.map@[i].func,
                    functions.map@[i].doc@,
                    #[trigger] r@[i],
                ),
    {
        let mut r: Vec<CompletionEntry> = Vec::new();
        let mut i: usize = 0;
        while i < functions.map.len()
            invariant
                i <= functions.map@.len(),
                r@.len() == i,
                forall|j: int|
                    0 <= j < i ==> user_entry_ok(
                        functions.map@[j].func,
                        functions.map@[j].doc@,
                        #[trigger] r@[j],
                    ),
            decreases functions.map@.len() - i,
        {
            let entry = &functions.map[i];
            let params_len = entry.func.params.len();
            let t = function_to_template(&entry.func, entry.doc.as_str());
            proof {
                assert(t.args@.len() == params_len);
            }
            let e = template_to_completion(&t);
            proof {
                assert(user_template_ok(functions.map@[i as int].func, functions.map@[
                i as int].doc@, t));
            }
            r.push(e);
            i = i + 1;
        }
        r
    }
}

/// What the provider answers for a classified context over the given
/// function index.
pub open spec fn spec_selected(
    p: CompletionProvider,
    fs: Functions,
    prefix: Seq<char>,
    r: Option<Vec<CompletionEntry>>,
) -> bool {
    match spec_last_token(prefix, 0) {
        None => r is None,
        Some((c, lo, hi)) => match c {
            TokenClass::NonCompletionSymbol => r is None,
            TokenClass::Jet => r matches Some(v) && entries_like(v@, p.jets@),
            TokenClass::ClosingType => r matches Some(v) && v@.len() == 1 && into_entry_ok(v@[0]),
            TokenClass::Assignment => {
                let ty = prefix.subrange(lo, hi);
                match spec_cast_of(ty) {
                    Some(from) => r matches Some(v) && v@.len() == 1 && cast_entry_ok(
                        ty,
                        from,
                        v@[0],
                    ),
                    None => r matches Some(v) && entries_like(v@, p.type_casts@),
                }
            },
            TokenClass::OtherSymbol | TokenClass::Identifier => r matches Some(v) && {
                let n = fs.map@.len() as int;
                let b = p.builtin@.len() as int;
                let m = p.modules@.len() as int;
                &&& v@.len() == n + b + m
                &&& forall|i: int|
                    0 <= i < n ==> user_entry_ok(
                        fs.map@[i].func,
                        fs.map@[i].doc@,
                        #[trigger] v@[i],
                    )
                &&& forall|i: int|
                    0 <= i < b ==> entry_like(#[trigger] v@[n + i], p.builtin@[i])
                &&& forall|i: int|
                    0 <= i < m ==> entry_like(#[trigger] v@[n + b + i], p.modules@[i])
            },
        },
    }
}

impl CompletionProvider {
    /// Select the candidates for the text before the cursor: classify
    /// it and answer the set that the classification calls for, or
    /// nothing when completion is suppressed.
    pub fn process_completions(&self, prefix: &str, functions: &Functions) -> (r: Option<
        Vec<CompletionEntry>,
    >)
        ensures
            spec_selected(*self, *functions, prefix@, r),
    {
        let completion_type = match parse(prefix) {
            Some(ct) => ct,
            None => {
                return None;
            },
        };
        match completion_type {
            CompletionType::Jet => Some(clone_entries(&self.jets)),
            CompletionType::Assignment(annotation) => {
                match cast_lookup(annotation.as_str()) {
                    Some(from) => {
                        let mut v: Vec<CompletionEntry> = Vec::new();
                        v.push(cast_entry(annotation.as_str(), from.as_str()));
                        Some(v)
                    },
                    None => Some(clone_entries(&self.type_casts)),
                }
            },
            CompletionType::ClosingType => {
                let mut v: Vec<CompletionEntry> = Vec::new();
                v.push(into_entry());
                Some(v)
            },
            CompletionType::NonCompletionSymbol => None,
            CompletionType::OtherSymbol | CompletionType::Identifier(_) => {
                let mut completions = CompletionProvider::get_function_completions(functions);
                let ghost n = completions@.len();
                let more = clone_entries(&self.builtin);
                let mut k: usize = 0;
                while k < more.len()
                    invariant
                        k <= more@.len(),
                        entries_like(more@, self.builtin@),
                        completions@.len() == n + k,
                        forall|i: int|
                            0 <= i < n ==> user_entry_ok(
                                functions.map@[i].func,
                                functions.map@[i].doc@,
                                #[trigger] completions@[i],
                            ),
                        n == functions.map@.len(),
                        forall|i: int|
                            0 <= i < k ==> entry_like(
                                #[trigger] completions@[n + i],
                                self.builtin@[i],
                            ),
                    decreases more@.len() - k,
                {
                    completions.push(clone_entry(&more[k]));
                    k = k + 1;
                }
                let stubs = clone_entries(&self.modules);
                let ghost b = self.builtin@.len();
                let mut m: usize = 0;
                while m < stubs.len()
                    invariant
                        m <= stubs@.len(),
                        entries_like(stubs@, self.modules@),
                        completions@.len() == n + b + m,
                        n == functions.map@.len(),
                        forall|i: int|
                            0 <= i < n ==> user_entry_ok(
                                functions.map@[i].func,
                                functions.map@[i].doc@,
                                #[trigger] completions@[i],
                            ),
                        forall|i: int|
                            0 <= i < b ==> entry_like(
                                #[trigger] completions@[n + i],
                                self.builtin@[i],
                            ),
                        forall|i: int|
                            0 <= i < m ==> entry_like(
                                #[trigger] completions@[n + b + i],
                                self.modules@[i],
                            ),
                    decreases stubs@.len() - m,
                {
                    completions.push(clone_entry(&stubs[m]));
                    m = m + 1;
                }
                Some(completions)
            },
        }
    }
}

} // verus!
