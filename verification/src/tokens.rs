//! Completion-context classifier.
//!
//! The classifier reads the text before the cursor and decides which kind
//! of completion fits there.  It tokenizes left to right with ordered
//! alternatives — at each position the first alternative that matches
//! wins — and the overall answer is the classification of the *last*
//! token consumed, so later syntactic context overrides earlier.
//!
//! The grammar, in match order at each token position:
//! 1. an assignment prefix `let <pattern> : <type> = <` with an optional
//!    partial identifier, classified by the type annotation's exact text;
//! 2. the closing of a cast, `>` `::` with an optional identifier;
//! 3. the primitive-operation namespace, `jet::` with an optional suffix;
//! 4. a bare identifier;
//! 5. a single `<` or `:`, which are completion trigger characters and
//!    must not re-trigger completion;
//! 6. any other single character.

use vstd::prelude::*;

use crate::chars::{
    chars_of, chars_to_string, is_ident_char, is_ident_char_exec, is_ident_start,
    is_ident_start_exec, is_ascii_digit, is_ascii_digit_exec, is_unicode_alphanumeric, is_ws,
    is_ws_exec, subvec,
};

verus! {

/// The classified completion context at the cursor.
#[derive(Debug, Clone)]
pub enum CompletionType {
    /// A trigger character that should not re-trigger completion.
    NonCompletionSymbol,
    /// Any other single symbol.
    OtherSymbol,
    /// A reference into the primitive-operation namespace.
    Jet,
    /// An assignment whose declared type is the carried text.
    Assignment(String),
    /// A bare identifier.
    Identifier(String),
    /// The closing of a cast expression.
    ClosingType,
}

/// Token classification without payload; payloads are index ranges into
/// the input.
#[derive(Debug, Clone, Copy, PartialEq, Eq, Structural)]
pub enum TokenClass {
    NonCompletionSymbol,
    OtherSymbol,
    Jet,
    Assignment,
    Identifier,
    ClosingType,
}

// ---------------------------------------------------------------------
// The grammar as spec functions.  Each takes the input and a position and
// returns the end position of a match, if any.
// ---------------------------------------------------------------------

/// Position after the whitespace run starting at `i`.
pub open spec fn spec_skip_ws(s: Seq<char>, i: int) -> int
    decreases s.len() - i,
{
    if 0 <= i < s.len() && is_ws(s[i]) {
        spec_skip_ws(s, i + 1)
    } else {
        i
    }
}

/// Position after the identifier-continuation run starting at `i`.
pub open spec fn spec_scan_ident(s: Seq<char>, i: int) -> int
    decreases s.len() - i,
{
    if 0 <= i < s.len() && is_ident_char(s[i]) {
        spec_scan_ident(s, i + 1)
    } else {
        i
    }
}

/// An identifier starting at `i`: a letter or underscore, then letters,
/// digits and underscores.
pub open spec fn spec_ident_end(s: Seq<char>, i: int) -> Option<int> {
    if 0 <= i < s.len() && is_ident_start(s[i]) {
        Some(spec_scan_ident(s, i + 1))
    } else {
        None
    }
}

/// Position after the digit run starting at `i`.
pub open spec fn spec_scan_digits(s: Seq<char>, i: int) -> int
    decreases s.len() - i,
{
    if 0 <= i < s.len() && is_ascii_digit(s[i]) {
        spec_scan_digits(s, i + 1)
    } else {
        i
    }
}

/// A character accepted after the `jet::` prefix: Unicode alphanumeric or
/// underscore.
pub open spec fn is_jet_suffix_char(c: char) -> bool {
    is_unicode_alphanumeric(c) || c == '_'
}

/// Position after the jet-suffix run starting at `i`.
pub open spec fn spec_scan_jet_suffix(s: Seq<char>, i: int) -> int
    decreases s.len() - i,
{
    if 0 <= i < s.len() && is_jet_suffix_char(s[i]) {
        spec_scan_jet_suffix(s, i + 1)
    } else {
        i
    }
}

/// The literal `jet::` at position `i`.
pub open spec fn spec_jet_at(s: Seq<char>, i: int) -> bool {
    &&& i >= 0
    &&& i + 5 <= s.len()
    &&& s[i] == 'j'
    &&& s[i + 1] == 'e'
    &&& s[i + 2] == 't'
    &&& s[i + 3] == ':'
    &&& s[i + 4] == ':'
}

/// The namespace token `jet::`, optionally followed by a partial name.
pub open spec fn spec_jet_end(s: Seq<char>, i: int) -> Option<int> {
    if spec_jet_at(s, i) {
        Some(spec_scan_jet_suffix(s, i + 5))
    } else {
        None
    }
}

/// The literal `let` at position `i`.
pub open spec fn spec_let_at(s: Seq<char>, i: int) -> bool {
    &&& i >= 0
    &&& i + 3 <= s.len()
    &&& s[i] == 'l'
    &&& s[i + 1] == 'e'
    &&& s[i + 2] == 't'
}

/// The literal `::` at position `i`.
pub open spec fn spec_colons_at(s: Seq<char>, i: int) -> bool {
    &&& i >= 0
    &&& i + 2 <= s.len()
    &&& s[i] == ':'
    &&& s[i + 1] == ':'
}

/// A list separator: whitespace, the separator character, whitespace.
pub open spec fn spec_sep_end(s: Seq<char>, i: int, sep: char) -> Option<int> {
    let j = spec_skip_ws(s, i);
    if 0 <= j < s.len() && s[j] == sep {
        Some(spec_skip_ws(s, j + 1))
    } else {
        None
    }
}

// The structural patterns and types are mutually recursive: a pattern is
// a tuple, an array or an identifier, and tuples and arrays hold
// comma-separated patterns.  The measure is the remaining input, with a
// rank to order same-position calls.

/// A parenthesized, comma-separated list of patterns.
pub open spec fn spec_tuple_end(s: Seq<char>, i: int) -> Option<int>
    decreases s.len() - i, 1int,
{
    if 0 <= i < s.len() && s[i] == '(' {
        let j = spec_list0_end(s, i + 1);
        if i < j && j < s.len() && s[j] == ')' {
            Some(j + 1)
        } else {
            None
        }
    } else {
        None
    }
}

/// A bracketed, comma-separated list of patterns.
pub open spec fn spec_array_end(s: Seq<char>, i: int) -> Option<int>
    decreases s.len() - i, 1int,
{
    if 0 <= i < s.len() && s[i] == '[' {
        let j = spec_list0_end(s, i + 1);
        if i < j && j < s.len() && s[j] == ']' {
            Some(j + 1)
        } else {
            None
        }
    } else {
        None
    }
}

/// A possibly empty comma-separated list of patterns; returns the
/// position after the last matched element, or `i` when none matches.
pub open spec fn spec_list0_end(s: Seq<char>, i: int) -> int
    decreases s.len() - i, 3int,
{
    if 0 <= i <= s.len() {
        match spec_pattern_end(s, i) {
            None => i,
            Some(j) => if i < j <= s.len() {
                spec_list_rest(s, j)
            } else {
                i
            },
        }
    } else {
        i
    }
}

/// Continuation of a comma-separated list after an element ending at `i`.
pub open spec fn spec_list_rest(s: Seq<char>, i: int) -> int
    decreases s.len() - i, 2int,
{
    if 0 <= i <= s.len() {
        match spec_sep_end(s, i, ',') {
            None => i,
            Some(j) => if i < j <= s.len() {
                match spec_pattern_end(s, j) {
                    None => i,
                    Some(k) => if j < k <= s.len() {
                        spec_list_rest(s, k)
                    } else {
                        i
                    },
                }
            } else {
                i
            },
        }
    } else {
        i
    }
}

/// A structural pattern: a tuple, an array, or an identifier.
pub open spec fn spec_pattern_end(s: Seq<char>, i: int) -> Option<int>
    decreases s.len() - i, 2int,
{
    if 0 <= i <= s.len() {
        match spec_tuple_end(s, i) {
            Some(e) => Some(e),
            None => match spec_array_end(s, i) {
                Some(e) => Some(e),
                None => spec_ident_end(s, i),
            },
        }
    } else {
        None
    }
}

/// An array type `[pattern; digits]`.
pub open spec fn spec_type_array_end(s: Seq<char>, i: int) -> Option<int>
    decreases s.len() - i, 1int,
{
    if 0 <= i < s.len() && s[i] == '[' {
        match spec_pattern_end(s, i + 1) {
            None => None,
            Some(j) => if i < j <= s.len() {
                match spec_sep_end(s, j, ';') {
                    None => None,
                    Some(k) => if j < k <= s.len() {
                        let d = spec_scan_digits(s, k);
                        if k <= d < s.len() && s[d] == ']' {
                            Some(d + 1)
                        } else {
                            None
                        }
                    } else {
                        None
                    },
                }
            } else {
                None
            },
        }
    } else {
        None
    }
}

/// A type annotation: a tuple, an array type, or an identifier.
pub open spec fn spec_ty_end(s: Seq<char>, i: int) -> Option<int>
    decreases s.len() - i, 2int,
{
    if 0 <= i <= s.len() {
        match spec_tuple_end(s, i) {
            Some(e) => Some(e),
            None => match spec_type_array_end(s, i) {
                Some(e) => Some(e),
                None => spec_ident_end(s, i),
            },
        }
    } else {
        None
    }
}

/// An assignment prefix ending in the completion trigger `<`: on a match,
/// the end of the token and the range of the type annotation's exact
/// text.
pub open spec fn spec_assignment_tok(s: Seq<char>, i: int) -> Option<(int, int, int)> {
    let j0 = spec_skip_ws(s, i);
    if spec_let_at(s, j0) {
        let j1 = spec_skip_ws(s, j0 + 3);
        match spec_pattern_end(s, j1) {
            None => None,
            Some(p) => {
                let j2 = spec_skip_ws(s, p);
                if 0 <= j2 < s.len() && s[j2] == ':' {
                    let j3 = spec_skip_ws(s, j2 + 1);
                    match spec_ty_end(s, j3) {
                        None => None,
                        Some(t) => {
                            let j4 = spec_skip_ws(s, t);
                            if 0 <= j4 < s.len() && s[j4] == '=' {
                                let j5 = spec_skip_ws(s, j4 + 1);
                                if 0 <= j5 < s.len() && s[j5] == '<' {
                                    match spec_pattern_end(s, j5 + 1) {
                                        Some(q) => Some((q, j3, t)),
                                        None => Some((j5 + 1, j3, t)),
                                    }
                                } else {
                                    None
                                }
                            } else {
                                None
                            }
                        },
                    }
                } else {
                    None
                }
            },
        }
    } else {
        None
    }
}

/// The closing of a cast: `>`, `::`, and an optional identifier.
pub open spec fn spec_type_end_tok(s: Seq<char>, i: int) -> Option<int> {
    let j0 = spec_skip_ws(s, i);
    if 0 <= j0 < s.len() && s[j0] == '>' {
        let j1 = spec_skip_ws(s, j0 + 1);
        if spec_colons_at(s, j1) {
            match spec_ident_end(s, j1 + 2) {
                Some(e) => Some(e),
                None => Some(j1 + 2),
            }
        } else {
            None
        }
    } else {
        None
    }
}

/// The next token at or after `i`: its end, its class, and the payload
/// range (meaningful for assignments and identifiers).  `None` when only
/// whitespace remains.
pub open spec fn spec_token(s: Seq<char>, i: int) -> Option<(int, TokenClass, int, int)> {
    let j = spec_skip_ws(s, i);
    match spec_assignment_tok(s, j) {
        Some((e, lo, hi)) => Some((e, TokenClass::Assignment, lo, hi)),
        None => match spec_type_end_tok(s, j) {
            Some(e) => Some((e, TokenClass::ClosingType, 0, 0)),
            None => match spec_jet_end(s, j) {
                Some(e) => Some((e, TokenClass::Jet, 0, 0)),
                None => match spec_ident_end(s, j) {
                    Some(e) => Some((e, TokenClass::Identifier, j, e)),
                    None => if 0 <= j < s.len() {
                        if s[j] == '<' || s[j] == ':' {
                            Some((j + 1, TokenClass::NonCompletionSymbol, 0, 0))
                        } else {
                            Some((j + 1, TokenClass::OtherSymbol, 0, 0))
                        }
                    } else {
                        None
                    },
                },
            },
        },
    }
}

/// The classification of the last token of `s` at or after `i`, with its
/// payload range.
pub open spec fn spec_last_token(s: Seq<char>, i: int) -> Option<(TokenClass, int, int)>
    decreases s.len() - i,
{
    match spec_token(s, i) {
        None => None,
        Some((e, c, lo, hi)) => if i < e <= s.len() {
            match spec_last_token(s, e) {
                None => Some((c, lo, hi)),
                Some(t) => Some(t),
            }
        } else {
            Some((c, lo, hi))
        },
    }
}

/// Relation between a token-class-and-payload triple and a produced
/// `CompletionType` value.
pub open spec fn completion_matches(
    s: Seq<char>,
    c: TokenClass,
    lo: int,
    hi: int,
    ct: CompletionType,
) -> bool {
    match c {
        TokenClass::NonCompletionSymbol => ct is NonCompletionSymbol,
        TokenClass::OtherSymbol => ct is OtherSymbol,
        TokenClass::Jet => ct is Jet,
        TokenClass::ClosingType => ct is ClosingType,
        TokenClass::Assignment => ct matches CompletionType::Assignment(t) && t@ == s.subrange(
            lo,
            hi,
        ),
        TokenClass::Identifier => ct matches CompletionType::Identifier(t) && t@ == s.subrange(
            lo,
            hi,
        ),
    }
}

/// The classification of the whole input, as the main entry point
/// promises it.
pub open spec fn spec_classifies(s: Seq<char>, r: Option<CompletionType>) -> bool {
    match spec_last_token(s, 0) {
        None => r is None,
        Some((c, lo, hi)) => r matches Some(ct) && completion_matches(s, c, lo, hi, ct),
    }
}

// ---------------------------------------------------------------------
// Bounds of the spec functions: every match ends after its start and
// within the input.
// ---------------------------------------------------------------------

pub proof fn lemma_skip_ws_bounds(s: Seq<char>, i: int)
    requires
        0 <= i <= s.len(),
    ensures
        i <= spec_skip_ws(s, i) <= s.len(),
    decreases s.len() - i,
{
    if i < s.len() && is_ws(s[i]) {
        lemma_skip_ws_bounds(s, i + 1);
    }
}

// ---------------------------------------------------------------------
// Executable tokenizer.
// ---------------------------------------------------------------------

fn skip_ws(v: &Vec<char>, i: usize) -> (r: usize)
    requires
        i <= v@.len(),
    ensures
        r == spec_skip_ws(v@, i as int),
        i <= r <= v@.len(),
{
    let mut cur = i;
    while cur < v.len() && is_ws_exec(v[cur])
        invariant
            i <= cur <= v@.len(),
            spec_skip_ws(v@, i as int) == spec_skip_ws(v@, cur as int),
        decreases v@.len() - cur,
    {
        cur = cur + 1;
    }
    proof {
        lemma_skip_ws_bounds(v@, cur as int);
    }
    cur
}

fn scan_ident(v: &Vec<char>, i: usize) -> (r: usize)
    requires
        i <= v@.len(),
    ensures
        r == spec_scan_ident(v@, i as int),
        i <= r <= v@.len(),
{
    let mut cur = i;
    while cur < v.len() && is_ident_char_exec(v[cur])
        invariant
            i <= cur <= v@.len(),
            spec_scan_ident(v@, i as int) == spec_scan_ident(v@, cur as int),
        decreases v@.len() - cur,
    {
        cur = cur + 1;
    }
    cur
}

fn ident_end(v: &Vec<char>, i: usize) -> (r: Option<usize>)
    requires
        i <= v@.len(),
    ensures
        match r {
            Some(e) => spec_ident_end(v@, i as int) == Some(e as int) && i < e <= v@.len(),
            None => spec_ident_end(v@, i as int) is None,
        },
{
    if i < v.len() && is_ident_start_exec(v[i]) {
        let e = scan_ident(v, i + 1);
        Some(e)
    } else {
        None
    }
}

fn scan_digits(v: &Vec<char>, i: usize) -> (r: usize)
    requires
        i <= v@.len(),
    ensures
        r == spec_scan_digits(v@, i as int),
        i <= r <= v@.len(),
{
    let mut cur = i;
    while cur < v.len() && is_ascii_digit_exec(v[cur])
        invariant
            i <= cur <= v@.len(),
            spec_scan_digits(v@, i as int) == spec_scan_digits(v@, cur as int),
        decreases v@.len() - cur,
    {
        cur = cur + 1;
    }
    cur
}

fn scan_jet_suffix(v: &Vec<char>, i: usize) -> (r: usize)
    requires
        i <= v@.len(),
    ensures
        r == spec_scan_jet_suffix(v@, i as int),
        i <= r <= v@.len(),
{
    let mut cur = i;
    while cur < v.len() && (v[cur].is_alphanumeric() || v[cur] == '_')
        invariant
            i <= cur <= v@.len(),
            spec_scan_jet_suffix(v@, i as int) == spec_scan_jet_suffix(v@, cur as int),
        decreases v@.len() - cur,
    {
        cur = cur + 1;
    }
    cur
}

fn jet_end(v: &Vec<char>, i: usize) -> (r: Option<usize>)
    requires
        i <= v@.len(),
    ensures
        match r {
            Some(e) => spec_jet_end(v@, i as int) == Some(e as int) && i < e <= v@.len(),
            None => spec_jet_end(v@, i as int) is None,
        },
{
    if v.len() - i >= 5 && v[i] == 'j' && v[i + 1] == 'e' && v[i + 2] == 't' && v[i + 3] == ':'
        && v[i + 4] == ':' {
        let e = scan_jet_suffix(v, i + 5);
        Some(e)
    } else {
        None
    }
}

fn sep_end(v: &Vec<char>, i: usize, sep: char) -> (r: Option<usize>)
    requires
        i <= v@.len(),
    ensures
        match r {
            Some(e) => spec_sep_end(v@, i as int, sep) == Some(e as int) && i < e <= v@.len(),
            None => spec_sep_end(v@, i as int, sep) is None,
        },
{
    let j = skip_ws(v, i);
    if j < v.len() && v[j] == sep {
        let e = skip_ws(v, j + 1);
        Some(e)
    } else {
        None
    }
}

fn tuple_end(v: &Vec<char>, i: usize) -> (r: Option<usize>)
    requires
        i <= v@.len(),
    ensures
        match r {
            Some(e) => spec_tuple_end(v@, i as int) == Some(e as int) && i < e <= v@.len(),
            None => spec_tuple_end(v@, i as int) is None,
        },
    decreases v@.len() - i, 1int,
{
    if i < v.len() && v[i] == '(' {
        let j = list0_end(v, i + 1);
        if j < v.len() && v[j] == ')' {
            Some(j + 1)
        } else {
            None
        }
    } else {
        None
    }
}

fn array_end(v: &Vec<char>, i: usize) -> (r: Option<usize>)
    requires
        i <= v@.len(),
    ensures
        match r {
            Some(e) => spec_array_end(v@, i as int) == Some(e as int) && i < e <= v@.len(),
            None => spec_array_end(v@, i as int) is None,
        },
    decreases v@.len() - i, 1int,
{
    if i < v.len() && v[i] == '[' {
        let j = list0_end(v, i + 1);
        if j < v.len() && v[j] == ']' {
            Some(j + 1)
        } else {
            None
        }
    } else {
        None
    }
}

fn list0_end(v: &Vec<char>, i: usize) -> (r: usize)
    requires
        i <= v@.len(),
    ensures
        r == spec_list0_end(v@, i as int),
        i <= r <= v@.len(),
    decreases v@.len() - i, 3int,
{
    match pattern_end(v, i) {
        None => i,
        Some(j) => list_rest(v, j),
    }
}

fn list_rest(v: &Vec<char>, i: usize) -> (r: usize)
    requires
        i <= v@.len(),
    ensures
        r == spec_list_rest(v@, i as int),
        i <= r <= v@.len(),
    decreases v@.len() - i, 2int,
{
    match sep_end(v, i, ',') {
        None => i,
        Some(j) => match pattern_end(v, j) {
            None => i,
            Some(k) => list_rest(v, k),
        },
    }
}

fn pattern_end(v: &Vec<char>, i: usize) -> (r: Option<usize>)
    requires
        i <= v@.len(),
    ensures
        match r {
            Some(e) => spec_pattern_end(v@, i as int) == Some(e as int) && i < e <= v@.len(),
            None => spec_pattern_end(v@, i as int) is None,
        },
    decreases v@.len() - i, 2int,
{
    match tuple_end(v, i) {
        Some(e) => Some(e),
        None => match array_end(v, i) {
            Some(e) => Some(e),
            None => ident_end(v, i),
        },
    }
}

fn type_array_end(v: &Vec<char>, i: usize) -> (r: Option<usize>)
    requires
        i <= v@.len(),
    ensures
        match r {
            Some(e) => spec_type_array_end(v@, i as int) == Some(e as int) && i < e <= v@.len(),
            None => spec_type_array_end(v@, i as int) is None,
        },
    decreases v@.len() - i, 1int,
{
    if i < v.len() && v[i] == '[' {
        match pattern_end(v, i + 1) {
            None => None,
            Some(j) => match sep_end(v, j, ';') {
                None => None,
                Some(k) => {
                    let d = scan_digits(v, k);
                    if d < v.len() && v[d] == ']' {
                        Some(d + 1)
                    } else {
                        None
                    }
                },
            },
        }
    } else {
        None
    }
}

fn ty_end(v: &Vec<char>, i: usize) -> (r: Option<usize>)
    requires
        i <= v@.len(),
    ensures
        match r {
            Some(e) => spec_ty_end(v@, i as int) == Some(e as int) && i < e <= v@.len(),
            None => spec_ty_end(v@, i as int) is None,
        },
    decreases v@.len() - i, 2int,
{
    match tuple_end(v, i) {
        Some(e) => Some(e),
        None => match type_array_end(v, i) {
            Some(e) => Some(e),
            None => ident_end(v, i),
        },
    }
}

fn assignment_tok(v: &Vec<char>, i: usize) -> (r: Option<(usize, usize, usize)>)
    requires
        i <= v@.len(),
    ensures
        match r {
            Some((e, lo, hi)) => spec_assignment_tok(v@, i as int) == Some(
                (e as int, lo as int, hi as int),
            ) && i < e <= v@.len() && lo <= hi <= v@.len(),
            None => spec_assignment_tok(v@, i as int) is None,
        },
{
    let j0 = skip_ws(v, i);
    if v.len() - j0 >= 3 && v[j0] == 'l' && v[j0 + 1] == 'e' && v[j0 + 2] == 't' {
        let j1 = skip_ws(v, j0 + 3);
        match pattern_end(v, j1) {
            None => None,
            Some(p) => {
                let j2 = skip_ws(v, p);
                if j2 < v.len() && v[j2] == ':' {
                    let j3 = skip_ws(v, j2 + 1);
                    match ty_end(v, j3) {
                        None => None,
                        Some(t) => {
                            let j4 = skip_ws(v, t);
                            if j4 < v.len() && v[j4] == '=' {
                                let j5 = skip_ws(v, j4 + 1);
                                if j5 < v.len() && v[j5] == '<' {
                                    match pattern_end(v, j5 + 1) {
                                        Some(q) => Some((q, j3, t)),
                                        None => Some((j5 + 1, j3, t)),
                                    }
                                } else {
                                    None
                                }
                            } else {
                                None
                            }
                        },
                    }
                } else {
                    None
                }
            },
        }
    } else {
        None
    }
}

fn type_end_tok(v: &Vec<char>, i: usize) -> (r: Option<usize>)
    requires
        i <= v@.len(),
    ensures
        match r {
            Some(e) => spec_type_end_tok(v@, i as int) == Some(e as int) && i < e <= v@.len(),
            None => spec_type_end_tok(v@, i as int) is None,
        },
{
    let j0 = skip_ws(v, i);
    if j0 < v.len() && v[j0] == '>' {
        let j1 = skip_ws(v, j0 + 1);
        if v.len() - j1 >= 2 && v[j1] == ':' && v[j1 + 1] == ':' {
            match ident_end(v, j1 + 2) {
                Some(e) => Some(e),
                None => Some(j1 + 2),
            }
        } else {
            None
        }
    } else {
        None
    }
}

fn token(v: &Vec<char>, i: usize) -> (r: Option<(usize, TokenClass, usize, usize)>)
    requires
        i <= v@.len(),
    ensures
        match r {
            Some((e, c, lo, hi)) => spec_token(v@, i as int) == Some(
                (e as int, c, lo as int, hi as int),
            ) && i < e <= v@.len() && lo <= hi <= v@.len(),
            None => spec_token(v@, i as int) is None,
        },
{
    let j = skip_ws(v, i);
    match assignment_tok(v, j) {
        Some((e, lo, hi)) => Some((e, TokenClass::Assignment, lo, hi)),
        None => match type_end_tok(v, j) {
            Some(e) => Some((e, TokenClass::ClosingType, 0, 0)),
            None => match jet_end(v, j) {
                Some(e) => Some((e, TokenClass::Jet, 0, 0)),
                None => match ident_end(v, j) {
                    Some(e) => Some((e, TokenClass::Identifier, j, e)),
                    None => if j < v.len() {
                        if v[j] == '<' || v[j] == ':' {
                            Some((j + 1, TokenClass::NonCompletionSymbol, 0, 0))
                        } else {
                            Some((j + 1, TokenClass::OtherSymbol, 0, 0))
                        }
                    } else {
                        None
                    },
                },
            },
        },
    }
}

/// The classification carried over the remaining input: the last token of
/// the rest overrides what was seen so far.
pub open spec fn spec_combine(
    last: Option<(TokenClass, int, int)>,
    rest: Option<(TokenClass, int, int)>,
) -> Option<(TokenClass, int, int)> {
    match rest {
        Some(t) => Some(t),
        None => last,
    }
}

/// Classify the text before the cursor: tokenize left to right and answer
/// the classification of the last token, or nothing when no token was
/// consumed.
pub fn parse(input: &str) -> (r: Option<CompletionType>)
    ensures
        spec_classifies(input@, r),
{
    let v = chars_of(input);
    let mut i: usize = 0;
    let mut last: Option<(TokenClass, usize, usize)> = None;
    loop
        invariant
            i <= v@.len(),
            v@ == input@,
            spec_combine(
                match last {
                    None => None,
                    Some((c, lo, hi)) => Some((c, lo as int, hi as int)),
                },
                spec_last_token(v@, i as int),
            ) == spec_last_token(v@, 0),
            last matches Some((c, lo, hi)) ==> lo <= hi <= v@.len(),
        ensures
            v@ == input@,
            match last {
                None => spec_last_token(v@, 0) is None,
                Some((c, lo, hi)) => spec_last_token(v@, 0) == Some((c, lo as int, hi as int))
                    && lo <= hi <= v@.len(),
            },
        decreases v@.len() - i,
    {
        let tk = token(&v, i);
        match tk {
            None => {
                proof {
                    assert(spec_last_token(v@, i as int) is None);
                }
                break ;
            },
            Some((e, c, lo, hi)) => {
                proof {
                    assert(spec_last_token(v@, i as int) == spec_combine(
                        Some((c, lo as int, hi as int)),
                        spec_last_token(v@, e as int),
                    ));
                }
                last = Some((c, lo, hi));
                i = e;
            },
        }
    }
    match last {
        None => None,
        Some((c, lo, hi)) => {
            match c {
                TokenClass::NonCompletionSymbol => Some(CompletionType::NonCompletionSymbol),
                TokenClass::OtherSymbol => Some(CompletionType::OtherSymbol),
                TokenClass::Jet => Some(CompletionType::Jet),
                TokenClass::ClosingType => Some(CompletionType::ClosingType),
                TokenClass::Assignment => {
                    let text = chars_to_string(&subvec(&v, lo, hi));
                    Some(CompletionType::Assignment(text))
                },
                TokenClass::Identifier => {
                    let text = chars_to_string(&subvec(&v, lo, hi));
                    Some(CompletionType::Identifier(text))
                },
            }
        },
    }
}

} // verus!
