//! Documentation comments attached to a declaration.
//!
//! Documentation is gathered by scanning the lines directly above a
//! declaration upward while they carry the comment marker, stopping at
//! the first line without it.  The collected lines are then joined with
//! layout rules: blank lines, headings, list items, block quotes and
//! code lines each start a new line, while consecutive plain-text lines
//! are joined with a single space.

use vstd::prelude::*;

use crate::chars::{chars_of, chars_to_string, is_unicode_whitespace, push_chars, subvec};
use crate::textbuf::{rope_line, rope_lines};

verus! {

/// The text without its trailing whitespace.
pub open spec fn spec_trim_end(s: Seq<char>) -> Seq<char>
    decreases s.len(),
{
    if s.len() > 0 && is_unicode_whitespace(s.last()) {
        spec_trim_end(s.drop_last())
    } else {
        s
    }
}

/// The text without its leading whitespace.
pub open spec fn spec_trim_start(s: Seq<char>) -> Seq<char>
    decreases s.len(),
{
    if s.len() > 0 && is_unicode_whitespace(s[0]) {
        spec_trim_start(s.drop_first())
    } else {
        s
    }
}

/// The text without leading and trailing whitespace.
pub open spec fn spec_trim(s: Seq<char>) -> Seq<char> {
    spec_trim_start(spec_trim_end(s))
}

/// Drop trailing whitespace.
pub fn trim_end_chars(v: &Vec<char>) -> (r: Vec<char>)
    ensures
        r@ == spec_trim_end(v@),
{
    let mut end: usize = v.len();
    proof {
        assert(v@.take(end as int) =~= v@);
    }
    while end > 0 && v[end - 1].is_whitespace()
        invariant
            end <= v@.len(),
            spec_trim_end(v@) == spec_trim_end(v@.take(end as int)),
        decreases end,
    {
        proof {
            assert(v@.take(end as int).last() == v@[end - 1]);
            assert(v@.take(end as int).drop_last() =~= v@.take(end as int - 1));
        }
        end = end - 1;
    }
    let r = subvec(v, 0, end);
    proof {
        if end > 0 {
            assert(v@.take(end as int).last() == v@[end - 1]);
        }
    }
    r
}

/// Drop leading whitespace.
pub fn trim_start_chars(v: &Vec<char>) -> (r: Vec<char>)
    ensures
        r@ == spec_trim_start(v@),
{
    let mut start: usize = 0;
    proof {
        assert(v@.skip(0) =~= v@);
    }
    while start < v.len() && v[start].is_whitespace()
        invariant
            start <= v@.len(),
            spec_trim_start(v@) == spec_trim_start(v@.skip(start as int)),
        decreases v@.len() - start,
    {
        proof {
            assert(v@.skip(start as int)[0] == v@[start as int]);
            assert(v@.skip(start as int).drop_first() =~= v@.skip(start as int + 1));
        }
        start = start + 1;
    }
    let r = subvec(v, start, v.len());
    proof {
        assert(v@.subrange(start as int, v@.len() as int) =~= v@.skip(start as int));
        if start < v@.len() {
            assert(v@.skip(start as int)[0] == v@[start as int]);
        }
    }
    r
}

/// Drop leading and trailing whitespace.
pub fn trim_chars(v: &Vec<char>) -> (r: Vec<char>)
    ensures
        r@ == spec_trim(v@),
{
    let e = trim_end_chars(v);
    trim_start_chars(&e)
}

/// A line carrying the documentation marker.
pub open spec fn is_doc_line(l: Seq<char>) -> bool {
    l.len() >= 3 && l[0] == '/' && l[1] == '/' && l[2] == '/'
}

/// Line `j` exists and carries the documentation marker.
pub open spec fn doc_line_at(lines: Seq<Seq<char>>, j: int) -> bool {
    0 <= j < lines.len() && is_doc_line(lines[j])
}

/// The documentation text of a marked line: everything after the
/// marker, without trailing whitespace.
pub open spec fn spec_doc_text(l: Seq<char>) -> Seq<char> {
    spec_trim_end(l.subrange(3, l.len() as int))
}

/// The first line of the marked run that ends at line `i` (exclusive):
/// scanning upward from `i`, the last index at which the line above is
/// still a marked line.
pub open spec fn spec_run_start(lines: Seq<Seq<char>>, i: int) -> int
    decreases i,
{
    if i <= 0 {
        0
    } else if i - 1 < lines.len() && is_doc_line(lines[i - 1]) {
        spec_run_start(lines, i - 1)
    } else {
        i
    }
}

/// The documentation texts of the marked run ending at `line`, in
/// source order.
pub open spec fn spec_collected(lines: Seq<Seq<char>>, line: int) -> Seq<Seq<char>> {
    Seq::new(
        (line - spec_run_start(lines, line)) as nat,
        |k: int| spec_doc_text(lines[spec_run_start(lines, line) + k]),
    )
}

/// Whether a trimmed line opens a layout block of its own: blank,
/// heading, list item, block quote, or fenced code.
pub open spec fn spec_is_md_block(t: Seq<char>) -> bool {
    ||| t.len() == 0
    ||| t[0] == '#'
    ||| t[0] == '-'
    ||| t[0] == '*'
    ||| t[0] == '>'
    ||| (t.len() >= 3 && t[0] == '`' && t[1] == '`' && t[2] == '`')
}

/// An indented code line: at least four spaces after the marker, judged
/// before trimming, since trimming would erase the indentation.
pub open spec fn spec_indented(l: Seq<char>) -> bool {
    l.len() >= 4 && l[0] == ' ' && l[1] == ' ' && l[2] == ' ' && l[3] == ' '
}

/// The joined documentation, from line `i` on, with the text joined so
/// far and whether the previous line was plain text.
pub open spec fn spec_join_docs_from(
    docs: Seq<Seq<char>>,
    i: int,
    acc: Seq<char>,
    prev: bool,
) -> Seq<char>
    decreases docs.len() - i,
{
    if i < 0 || i >= docs.len() {
        acc
    } else {
        let t = spec_trim(docs[i]);
        let md = spec_is_md_block(t) || spec_indented(docs[i]);
        let acc2 = if acc.len() == 0 {
            t
        } else if prev && !md {
            acc + seq![' '] + t
        } else {
            acc + seq!['\n'] + t
        };
        spec_join_docs_from(docs, i + 1, acc2, t.len() > 0 && !md)
    }
}

/// The documentation attached to a declaration on line `line`
/// (0-based): the marked lines directly above it, joined.
pub open spec fn spec_comments(lines: Seq<Seq<char>>, line: int) -> Seq<char> {
    spec_join_docs_from(spec_collected(lines, line), 0, Seq::empty(), false)
}

fn is_doc_line_exec(v: &Vec<char>) -> (r: bool)
    ensures
        r == is_doc_line(v@),
{
    v.len() >= 3 && v[0] == '/' && v[1] == '/' && v[2] == '/'
}

fn is_md_block_exec(t: &Vec<char>) -> (r: bool)
    ensures
        r == spec_is_md_block(t@),
{
    if t.len() == 0 {
        return true;
    }
    let c = t[0];
    c == '#' || c == '-' || c == '*' || c == '>' || (t.len() >= 3 && t[0] == '`' && t[1] == '`'
        && t[2] == '`')
}

fn is_indented_exec(l: &Vec<char>) -> (r: bool)
    ensures
        r == spec_indented(l@),
{
    l.len() >= 4 && l[0] == ' ' && l[1] == ' ' && l[2] == ' ' && l[3] == ' '
}

/// Gather the documentation attached to a declaration on line `line`
/// (0-based) of the text: the marked lines directly above it, in source
/// order, joined under the layout rules.
pub fn get_comments_from_lines(line: u32, rope: &ropey::Rope) -> (r: String)
    ensures
        r@ == spec_comments(rope_lines(*rope), line as int),
{
    let ghost lines = rope_lines(*rope);
    if line == 0 {
        proof {
            assert(spec_collected(lines, 0) =~= Seq::<Seq<char>>::empty());
        }
        return String::new();
    }
    let line_us: usize = line as usize;
    let mut s: usize = line_us;
    loop
        invariant
            s <= line_us,
            lines == rope_lines(*rope),
            spec_run_start(lines, line as int) == spec_run_start(lines, s as int),
            forall|j: int| s <= j < line_us ==> #[trigger] doc_line_at(lines, j),
        ensures
            s <= line_us,
            spec_run_start(lines, line as int) == s as int,
            forall|j: int| s <= j < line_us ==> #[trigger] doc_line_at(lines, j),
        decreases s,
    {
        if s == 0 {
            break ;
        }
        let above = rope_line(rope, s - 1);
        let ok = match above {
            Some(text) => is_doc_line_exec(&chars_of(text.as_str())),
            None => false,
        };
        if !ok {
            break ;
        }
        proof {
            assert(doc_line_at(lines, s as int - 1));
        }
        s = s - 1;
    }
    let ghost rs = spec_run_start(lines, line as int);
    let ghost col = spec_collected(lines, line as int);
    let mut docs: Vec<Vec<char>> = Vec::new();
    let mut k: usize = s;
    while k < line_us
        invariant
            s <= k <= line_us,
            line_us == line as usize,
            rs == s as int,
            rs == spec_run_start(lines, line as int),
            col == spec_collected(lines, line as int),
            col.len() == line_us - s,
            lines == rope_lines(*rope),
            forall|j: int| s <= j < line_us ==> #[trigger] doc_line_at(lines, j),
            docs@.len() == k - s,
            forall|m: int| 0 <= m < docs@.len() ==> (#[trigger] docs@[m])@ == col[m],
        decreases line_us - k,
    {
        proof {
            assert(doc_line_at(lines, k as int));
        }
        let text = match rope_line(rope, k) {
            Some(t) => t,
            None => {
                proof {
                    assert(false);
                }
                String::new()
            },
        };
        let cs = chars_of(text.as_str());
        let body = subvec(&cs, 3, cs.len());
        let doc = trim_end_chars(&body);
        docs.push(doc);
        k = k + 1;
        proof {
            assert(col[k - s - 1] == spec_doc_text(lines[rs + (k - s - 1)]));
        }
    }
    let mut acc: Vec<char> = Vec::new();
    let mut prev: bool = false;
    let mut i: usize = 0;
    while i < docs.len()
        invariant
            i <= docs@.len(),
            col == spec_collected(lines, line as int),
            docs@.len() == col.len(),
            forall|m: int| 0 <= m < docs@.len() ==> (#[trigger] docs@[m])@ == col[m],
            spec_join_docs_from(col, i as int, acc@, prev) == spec_join_docs_from(
                col,
                0,
                Seq::empty(),
                false,
            ),
        decreases docs@.len() - i,
    {
        let t = trim_chars(&docs[i]);
        let md = is_md_block_exec(&t) || is_indented_exec(&docs[i]);
        let t_nonempty = t.len() > 0;
        let ghost acc0 = acc@;
        if acc.len() == 0 {
            acc = t;
            proof {
                assert(acc@ == spec_trim(col[i as int]));
            }
        } else if prev && !md {
            acc.push(' ');
            push_chars(&mut acc, &t);
            proof {
                assert(acc@ =~= acc0 + seq![' '] + spec_trim(col[i as int]));
            }
        } else {
            acc.push('\n');
            push_chars(&mut acc, &t);
            proof {
                assert(acc@ =~= acc0 + seq!['\n'] + spec_trim(col[i as int]));
            }
        }
        prev = t_nonempty && !md;
        i = i + 1;
    }
    chars_to_string(&acc)
}

} // verus!
