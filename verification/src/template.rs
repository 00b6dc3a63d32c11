//! Renderable templates for functions and operations.
//!
//! A template carries everything a completion item or a hover card needs:
//! the display name, the generic and argument placeholder names, the
//! return type, the documentation, and the editor-insertable snippet with
//! numbered placeholders (generics numbered first, then arguments).

use vstd::prelude::*;

use crate::chars::{chars_to_string, decimal_chars, push_chars, push_str_chars, spec_decimal};

verus! {

/// Template for a callable shown in completion and hover.
#[derive(Debug, Clone)]
pub struct FunctionTemplate {
    /// Display name shown in the completion list.
    pub display_name: String,
    /// Generic type parameters, numbered first in the snippet.
    pub generics: Vec<String>,
    /// Argument placeholder names.
    pub args: Vec<String>,
    /// Return type text.
    pub return_type: String,
    /// Markdown documentation.
    pub description: String,
    /// Text inserted when the completion is accepted.
    pub snippet: String,
}

/// The views of a sequence of strings.
pub open spec fn views_of_strings(ss: Seq<String>) -> Seq<Seq<char>> {
    Seq::new(ss.len(), |i: int| ss[i]@)
}

/// Concatenation of `parts` with `sep` between consecutive parts.
pub open spec fn spec_join(parts: Seq<Seq<char>>, sep: Seq<char>) -> Seq<char>
    decreases parts.len(),
{
    if parts.len() == 0 {
        Seq::empty()
    } else if parts.len() == 1 {
        parts[0]
    } else {
        spec_join(parts.drop_last(), sep) + sep + parts.last()
    }
}

/// A numbered snippet placeholder `${n:item}`.
pub open spec fn spec_placeholder(n: int, item: Seq<char>) -> Seq<char> {
    "${"@ + spec_decimal(n) + ":"@ + item + "}"@
}

/// The numbered placeholders of `items`, starting at `offset + 1`.
pub open spec fn spec_placeholders(items: Seq<Seq<char>>, offset: int) -> Seq<Seq<char>> {
    Seq::new(items.len(), |i: int| spec_placeholder(offset + i + 1, items[i]))
}

/// The snippet head for a name with generic placeholders: the bare name
/// when there are none, otherwise `name::<${1:g1}, ${2:g2}, ...>`.
pub open spec fn spec_snippet_name(name: Seq<char>, generics: Seq<Seq<char>>) -> Seq<char> {
    if generics.len() == 0 {
        name
    } else {
        name + "::<"@ + spec_join(spec_placeholders(generics, 0), ", "@) + ">"@
    }
}

/// The full insert text of a template: the snippet head applied to the
/// argument placeholders, numbered after the generics.
pub open spec fn spec_insert_text(t: FunctionTemplate) -> Seq<char> {
    t.snippet@ + "("@ + spec_join(
        spec_placeholders(views_of_strings(t.args@), t.generics@.len() as int),
        ", "@,
    ) + ")"@
}

/// The signature line of a template; an empty return type renders as the
/// unit type.
pub open spec fn spec_signature(t: FunctionTemplate) -> Seq<char> {
    "fn("@ + spec_join(views_of_strings(t.args@), ", "@) + ") -> "@ + (if t.return_type@.len()
        == 0 {
        "()"@
    } else {
        t.return_type@
    })
}

/// The placeholder `${n:item}` as characters.
fn placeholder_chars(n: usize, item: &String) -> (r: Vec<char>)
    requires
        n <= usize::MAX,
    ensures
        r@ == spec_placeholder(n as int, item@),
{
    let mut r: Vec<char> = Vec::new();
    push_str_chars(&mut r, "${");
    let d = decimal_chars(n);
    push_chars(&mut r, &d);
    push_str_chars(&mut r, ":");
    push_str_chars(&mut r, item.as_str());
    push_str_chars(&mut r, "}");
    proof {
        assert(r@ =~= spec_placeholder(n as int, item@));
    }
    r
}

proof fn lemma_join_step(parts: Seq<Seq<char>>, sep: Seq<char>, i: int)
    requires
        0 <= i < parts.len(),
    ensures
        spec_join(parts.take(i + 1), sep) == if i == 0 {
            parts[0]
        } else {
            spec_join(parts.take(i), sep) + sep + parts[i]
        },
{
    let p1 = parts.take(i + 1);
    if i == 0 {
        assert(p1.len() == 1);
        assert(p1[0] == parts[0]);
    } else {
        assert(p1.drop_last() =~= parts.take(i));
        assert(p1.last() == parts[i]);
    }
}

/// The numbered placeholders of `items` starting at `offset + 1`, joined
/// with a comma and a space.
fn join_placeholders(items: &Vec<String>, offset: usize) -> (r: Vec<char>)
    requires
        items@.len() + offset <= usize::MAX,
    ensures
        r@ == spec_join(spec_placeholders(views_of_strings(items@), offset as int), ", "@),
{
    let ghost ph = spec_placeholders(views_of_strings(items@), offset as int);
    let mut r: Vec<char> = Vec::new();
    let mut i: usize = 0;
    while i < items.len()
        invariant
            i <= items@.len(),
            items@.len() + offset <= usize::MAX,
            ph == spec_placeholders(views_of_strings(items@), offset as int),
            r@ == spec_join(ph.take(i as int), ", "@),
        decreases items@.len() - i,
    {
        if i > 0 {
            push_str_chars(&mut r, ", ");
        }
        let p = placeholder_chars(offset + i + 1, &items[i]);
        push_chars(&mut r, &p);
        proof {
            lemma_join_step(ph, ", "@, i as int);
            assert(ph[i as int] == spec_placeholder(offset + i + 1, items@[i as int]@));
        }
        i = i + 1;
    }
    proof {
        assert(ph.take(items@.len() as int) =~= ph);
    }
    r
}

/// The strings of `items` joined with a comma and a space.
pub fn join_strings(items: &Vec<String>) -> (r: Vec<char>)
    ensures
        r@ == spec_join(views_of_strings(items@), ", "@),
{
    let ghost vs = views_of_strings(items@);
    let mut r: Vec<char> = Vec::new();
    let mut i: usize = 0;
    while i < items.len()
        invariant
            i <= items@.len(),
            vs == views_of_strings(items@),
            r@ == spec_join(vs.take(i as int), ", "@),
        decreases items@.len() - i,
    {
        if i > 0 {
            push_str_chars(&mut r, ", ");
        }
        push_str_chars(&mut r, items[i].as_str());
        proof {
            lemma_join_step(vs, ", "@, i as int);
            assert(vs[i as int] == items@[i as int]@);
        }
        i = i + 1;
    }
    proof {
        assert(vs.take(items@.len() as int) =~= vs);
    }
    r
}

impl FunctionTemplate {
    /// Create a template with generic placeholders.
    pub fn new(
        display_name: String,
        generics: Vec<String>,
        args: Vec<String>,
        return_type: String,
        description: String,
    ) -> (t: FunctionTemplate)
        requires
            generics@.len() <= usize::MAX - 1,
        ensures
            t.display_name == display_name,
            t.generics == generics,
            t.args == args,
            t.return_type == return_type,
            t.description == description,
            t.snippet@ == spec_snippet_name(display_name@, views_of_strings(generics@)),
    {
        let snippet = Self::get_snippet_name(display_name.as_str(), &generics);
        FunctionTemplate { display_name, generics, args, return_type, description, snippet }
    }

    /// Create a template without generic placeholders.
    pub fn simple(
        name: String,
        args: Vec<String>,
        return_type: String,
        description: String,
    ) -> (t: FunctionTemplate)
        ensures
            t.display_name == name,
            t.generics@.len() == 0,
            t.args == args,
            t.return_type == return_type,
            t.description == description,
            t.snippet@ == name@,
    {
        let generics: Vec<String> = Vec::new();
        Self::new(name, generics, args, return_type, description)
    }

    /// The snippet head for a name and its generic placeholders.
    pub fn get_snippet_name(name: &str, generics: &Vec<String>) -> (r: String)
        requires
            generics@.len() <= usize::MAX - 1,
        ensures
            r@ == spec_snippet_name(name@, views_of_strings(generics@)),
    {
        if generics.len() == 0 {
            let mut r: Vec<char> = Vec::new();
            push_str_chars(&mut r, name);
            proof {
                assert(r@ =~= name@);
            }
            chars_to_string(&r)
        } else {
            let mut r: Vec<char> = Vec::new();
            push_str_chars(&mut r, name);
            push_str_chars(&mut r, "::<");
            let j = join_placeholders(generics, 0);
            push_chars(&mut r, &j);
            push_str_chars(&mut r, ">");
            proof {
                assert(r@ =~= spec_snippet_name(name@, views_of_strings(generics@)));
            }
            chars_to_string(&r)
        }
    }

    /// The text inserted when this completion is accepted.
    pub fn get_insert_text(&self) -> (r: String)
        requires
            self.args@.len() + self.generics@.len() <= usize::MAX,
        ensures
            r@ == spec_insert_text(*self),
    {
        let mut r: Vec<char> = Vec::new();
        push_str_chars(&mut r, self.snippet.as_str());
        push_str_chars(&mut r, "(");
        let j = join_placeholders(&self.args, self.generics.len());
        push_chars(&mut r, &j);
        push_str_chars(&mut r, ")");
        proof {
            assert(r@ =~= spec_insert_text(*self));
        }
        chars_to_string(&r)
    }

    /// The signature text shown as the completion's detail.
    pub fn get_signature(&self) -> (r: String)
        ensures
            r@ == spec_signature(*self),
    {
        let mut r: Vec<char> = Vec::new();
        push_str_chars(&mut r, "fn(");
        let j = join_strings(&self.args);
        push_chars(&mut r, &j);
        push_str_chars(&mut r, ") -> ");
        if self.return_type.as_str().unicode_len() == 0 {
            push_str_chars(&mut r, "()");
        } else {
            push_str_chars(&mut r, self.return_type.as_str());
        }
        proof {
            assert(r@ =~= spec_signature(*self));
        }
        chars_to_string(&r)
    }
}

} // verus!
