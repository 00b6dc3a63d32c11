//! The function index of a document.
//!
//! A parsed document is modeled as its top-level function declarations:
//! name, rendered parameter and return types, declaration span, and the
//! calls of the body in pre-order, each with its name and span.  The
//! index maps function names to declarations with their attached
//! documentation; names are unique, an insert under an existing name
//! replaces that entry in place, and iteration order is insertion order,
//! which keeps every walk over the index deterministic.

use vstd::prelude::*;
use vstd::string::StringExecFns;

use crate::builtins::{spec_call_kind_eq, CallKind};
use crate::coords::Span;
use crate::template::{views_of_strings, FunctionTemplate};

verus! {

/// A call expression of a function body: its name and the span of the
/// whole call.
#[derive(Debug)]
pub struct CallInfo {
    pub name: CallKind,
    pub span: Span,
}

/// A top-level function declaration.
#[derive(Debug)]
pub struct FunctionDecl {
    /// The function's name.
    pub name: String,
    /// The parameters, rendered as `name: type`.
    pub params: Vec<String>,
    /// The rendered return type, if one was declared.
    pub ret: Option<String>,
    /// The span of the whole declaration.
    pub span: Span,
    /// Every call of the body, in pre-order.
    pub calls: Vec<CallInfo>,
}

/// One entry of the function index.
#[derive(Debug)]
pub struct FunctionEntry {
    pub name: String,
    pub func: FunctionDecl,
    pub doc: String,
}

/// The function index: entries in insertion order, names unique.
#[derive(Debug)]
pub struct Functions {
    pub map: Vec<FunctionEntry>,
}

/// Two calls carry the same information.
pub open spec fn call_like(a: CallInfo, b: CallInfo) -> bool {
    spec_call_kind_eq(a.name, b.name) && a.span == b.span
}

/// Two declarations carry the same information.
pub open spec fn decl_like(a: FunctionDecl, b: FunctionDecl) -> bool {
    &&& a.name@ == b.name@
    &&& a.params@.len() == b.params@.len()
    &&& forall|i: int| 0 <= i < a.params@.len() ==> (#[trigger] a.params@[i])@ == b.params@[i]@
    &&& match (a.ret, b.ret) {
        (Some(x), Some(y)) => x@ == y@,
        (None, None) => true,
        _ => false,
    }
    &&& a.span == b.span
    &&& a.calls@.len() == b.calls@.len()
    &&& forall|i: int| 0 <= i < a.calls@.len() ==> call_like(#[trigger] a.calls@[i], b.calls@[i])
}

/// The names of the index are unique.
pub open spec fn functions_wf(fs: Functions) -> bool {
    forall|i: int, j: int|
        0 <= i < j < fs.map@.len() ==> (#[trigger] fs.map@[i]).name@ != (
        #[trigger] fs.map@[j]).name@
}

/// Whether some entry carries `name`.
pub open spec fn spec_has_name(s: Seq<FunctionEntry>, name: Seq<char>) -> bool {
    exists|i: int| 0 <= i < s.len() && (#[trigger] s[i]).name@ == name
}

pub fn clone_string(s: &String) -> (r: String)
    ensures
        r@ == s@,
{
    s.clone()
}

pub fn clone_strings(v: &Vec<String>) -> (r: Vec<String>)
    ensures
        r@.len() == v@.len(),
        forall|i: int| 0 <= i < v@.len() ==> (#[trigger] r@[i])@ == v@[i]@,
{
    let mut r: Vec<String> = Vec::new();
    let mut i: usize = 0;
    while i < v.len()
        invariant
            i <= v@.len(),
            r@.len() == i,
            forall|j: int| 0 <= j < i ==> (#[trigger] r@[j])@ == v@[j]@,
        decreases v@.len() - i,
    {
        r.push(v[i].clone());
        i = i + 1;
    }
    r
}

pub fn clone_opt_string(o: &Option<String>) -> (r: Option<String>)
    ensures
        match (o, r) {
            (Some(x), Some(y)) => x@ == y@,
            (None, None) => true,
            _ => false,
        },
{
    match o {
        Some(s) => Some(s.clone()),
        None => None,
    }
}

pub fn clone_call_kind(k: &CallKind) -> (r: CallKind)
    ensures
        spec_call_kind_eq(r, *k),
{
    match k {
        CallKind::Jet(s) => CallKind::Jet(s.clone()),
        CallKind::UnwrapLeft(s) => CallKind::UnwrapLeft(s.clone()),
        CallKind::UnwrapRight(s) => CallKind::UnwrapRight(s.clone()),
        CallKind::Unwrap => CallKind::Unwrap,
        CallKind::IsNone(s) => CallKind::IsNone(s.clone()),
        CallKind::Assert => CallKind::Assert,
        CallKind::Panic => CallKind::Panic,
        CallKind::Debug => CallKind::Debug,
        CallKind::TypeCast(s) => CallKind::TypeCast(s.clone()),
        CallKind::Custom(s) => CallKind::Custom(s.clone()),
        CallKind::Fold(a, b) => CallKind::Fold(a.clone(), b.clone()),
        CallKind::ArrayFold(a, b) => CallKind::ArrayFold(a.clone(), b.clone()),
        CallKind::ForWhile(s) => CallKind::ForWhile(s.clone()),
    }
}

pub fn clone_call(c: &CallInfo) -> (r: CallInfo)
    ensures
        call_like(r, *c),
{
    CallInfo { name: clone_call_kind(&c.name), span: c.span }
}

pub fn clone_calls(v: &Vec<CallInfo>) -> (r: Vec<CallInfo>)
    ensures
        r@.len() == v@.len(),
        forall|i: int| 0 <= i < v@.len() ==> call_like(#[trigger] r@[i], v@[i]),
{
    let mut r: Vec<CallInfo> = Vec::new();
    let mut i: usize = 0;
    while i < v.len()
        invariant
            i <= v@.len(),
            r@.len() == i,
            forall|j: int| 0 <= j < i ==> call_like(#[trigger] r@[j], v@[j]),
        decreases v@.len() - i,
    {
        r.push(clone_call(&v[i]));
        i = i + 1;
    }
    r
}

pub fn clone_decl(f: &FunctionDecl) -> (r: FunctionDecl)
    ensures
        decl_like(r, *f),
{
    FunctionDecl {
        name: f.name.clone(),
        params: clone_strings(&f.params),
        ret: clone_opt_string(&f.ret),
        span: f.span,
        calls: clone_calls(&f.calls),
    }
}

impl Functions {
    /// An empty index.
    pub fn new() -> (r: Functions)
        ensures
            r.map@.len() == 0,
            functions_wf(r),
    {
        Functions { map: Vec::new() }
    }

    /// Index of the entry carrying `name`, if one exists.
    fn find_index(&self, name: &str) -> (r: Option<usize>)
        ensures
            match r {
                Some(i) => i < self.map@.len() && self.map@[i as int].name@ == name@,
                None => !spec_has_name(self.map@, name@),
            },
    {
        let mut i: usize = 0;
        while i < self.map.len()
            invariant
                i <= self.map@.len(),
                forall|j: int| 0 <= j < i ==> (#[trigger] self.map@[j]).name@ != name@,
            decreases self.map@.len() - i,
        {
            if crate::chars::str_eq(self.map[i].name.as_str(), name) {
                return Some(i);
            }
            i = i + 1;
        }
        None
    }

    /// Insert a function with its documentation, replacing the entry of
    /// the same name if one exists, appending otherwise.
    pub fn insert(&mut self, name: String, func: FunctionDecl, doc: String)
        requires
            functions_wf(*old(self)),
        ensures
            functions_wf(*final(self)),
            spec_has_name(old(self).map@, name@) ==> {
                &&& final(self).map@.len() == old(self).map@.len()
                &&& exists|i: int|
                    {
                        &&& 0 <= i < old(self).map@.len()
                        &&& (#[trigger] old(self).map@[i]).name@ == name@
                        &&& final(self).map@ == old(self).map@.update(
                            i,
                            FunctionEntry { name, func, doc },
                        )
                    }
            },
            !spec_has_name(old(self).map@, name@) ==> final(self).map@ == old(self).map@.push(
                FunctionEntry { name, func, doc },
            ),
    {
        let idx = self.find_index(name.as_str());
        match idx {
            Some(i) => {
                self.map.remove(i);
                self.map.insert(i, FunctionEntry { name, func, doc });
                proof {
                    assert(self.map@ =~= old(self).map@.update(
                        i as int,
                        FunctionEntry { name, func, doc },
                    ));
                }
            },
            None => {
                self.map.push(FunctionEntry { name, func, doc });
            },
        }
    }

    /// The declaration and documentation stored under `name`.
    pub fn get(&self, name: &str) -> (r: Option<(&FunctionDecl, &String)>)
        ensures
            match r {
                Some((f, d)) => exists|i: int|
                    {
                        &&& 0 <= i < self.map@.len()
                        &&& (#[trigger] self.map@[i]).name@ == name@
                        &&& *f == self.map@[i].func
                        &&& d@ == self.map@[i].doc@
                    },
                None => !spec_has_name(self.map@, name@),
            },
    {
        match self.find_index(name) {
            Some(i) => Some((&self.map[i].func, &self.map[i].doc)),
            None => None,
        }
    }

    /// The declaration stored under `name`.
    pub fn get_func(&self, name: &str) -> (r: Option<&FunctionDecl>)
        ensures
            match r {
                Some(f) => exists|i: int|
                    {
                        &&& 0 <= i < self.map@.len()
                        &&& (#[trigger] self.map@[i]).name@ == name@
                        &&& *f == self.map@[i].func
                    },
                None => !spec_has_name(self.map@, name@),
            },
    {
        match self.find_index(name) {
            Some(i) => Some(&self.map[i].func),
            None => None,
        }
    }

    /// All declarations, in index order.
    pub fn functions(&self) -> (r: Vec<FunctionDecl>)
        ensures
            r@.len() == self.map@.len(),
            forall|i: int| 0 <= i < r@.len() ==> decl_like(#[trigger] r@[i], self.map@[i].func),
    {
        let mut r: Vec<FunctionDecl> = Vec::new();
        let mut i: usize = 0;
        while i < self.map.len()
            invariant
                i <= self.map@.len(),
                r@.len() == i,
                forall|j: int| 0 <= j < i ==> decl_like(#[trigger] r@[j], self.map@[j].func),
            decreases self.map@.len() - i,
        {
            r.push(clone_decl(&self.map[i].func));
            i = i + 1;
        }
        r
    }

    /// All declarations with their documentation, in index order.
    pub fn functions_and_docs(&self) -> (r: Vec<(FunctionDecl, String)>)
        ensures
            r@.len() == self.map@.len(),
            forall|i: int|
                0 <= i < r@.len() ==> decl_like((#[trigger] r@[i]).0, self.map@[i].func)
                    && r@[i].1@ == self.map@[i].doc@,
    {
        let mut r: Vec<(FunctionDecl, String)> = Vec::new();
        let mut i: usize = 0;
        while i < self.map.len()
            invariant
                i <= self.map@.len(),
                r@.len() == i,
                forall|j: int|
                    0 <= j < i ==> decl_like((#[trigger] r@[j]).0, self.map@[j].func) && r@[j].1@
                        == self.map@[j].doc@,
            decreases self.map@.len() - i,
        {
            r.push((clone_decl(&self.map[i].func), self.map[i].doc.clone()));
            i = i + 1;
        }
        r
    }
}

/// Render a declaration and its documentation to a completion template:
/// the bare name as snippet, the rendered parameters as arguments, and
/// the declared return type, or the unit type when none was declared.
pub fn function_to_template(func: &FunctionDecl, doc: &str) -> (t: FunctionTemplate)
    ensures
        t.display_name@ == func.name@,
        t.generics@.len() == 0,
        t.args@.len() == func.params@.len(),
        views_of_strings(t.args@) == views_of_strings(func.params@),
        t.return_type@ == match func.ret {
            Some(r) => r@,
            None => "()"@,
        },
        t.description@ == doc@,
        t.snippet@ == func.name@,
{
    let ret = match &func.ret {
        Some(r) => clone_string(r),
        None => String::from_str("()"),
    };
    let t = FunctionTemplate::simple(
        clone_string(&func.name),
        clone_strings(&func.params),
        ret,
        String::from_str(doc),
    );
    proof {
        assert(views_of_strings(t.args@) =~= views_of_strings(func.params@));
    }
    t
}

} // verus!
