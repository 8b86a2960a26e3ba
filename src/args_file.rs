//! The file of extra arguments: one argument per line, blank lines and `#` comments
//! skipped, surrounding whitespace removed.
use vstd::prelude::*;

use vstd::string::StrSliceExecFns;

verus! {

/// The pieces of `s` between line feeds: one more than `s` has line feeds.
pub open spec fn newline_pieces(s: Seq<char>) -> Seq<Seq<char>>
    decreases s.len(),
{
    if s.len() == 0 {
        seq![Seq::empty()]
    } else {
        let rest = newline_pieces(s.drop_last());
        if s.last() == '\n' {
            rest.push(Seq::empty())
        } else {
            rest.update(rest.len() - 1, rest.last().push(s.last()))
        }
    }
}

/// A line without the carriage return that ends it, if any.
pub open spec fn without_cr(l: Seq<char>) -> Seq<char> {
    if l.len() > 0 && l.last() == '\r' {
        l.drop_last()
    } else {
        l
    }
}

/// The lines of `s`: split at `\n`, a `\r` just before a `\n` removed, and no empty
/// line after a final `\n`. A last line without `\n` is kept as it is.
pub open spec fn lines_of(s: Seq<char>) -> Seq<Seq<char>> {
    let pieces = newline_pieces(s);
    let ended = pieces.drop_last().map_values(|l: Seq<char>| without_cr(l));
    if pieces.last().len() == 0 {
        ended
    } else {
        ended.push(pieces.last())
    }
}

/// What `str::trim` yields for a text: it without leading and trailing whitespace.
pub uninterp spec fn trimmed(s: Seq<char>) -> Seq<char>;

/// Relies on `str::lines`: the lines of `s`, split at `\n` or `\r\n`, with the line
/// ending removed; a final line ending adds no empty line.
#[verifier::external_body]
fn split_lines(s: &str) -> (r: Vec<String>)
    ensures
        r.deep_view() == lines_of(s@),
{
    s.lines().map(|l| l.to_string()).collect()
}

/// Relies on `str::trim`: `s` without leading and trailing whitespace.
#[verifier::external_body]
fn trim_text(s: &str) -> (r: String)
    ensures
        r@ == trimmed(s@),
{
    s.trim().to_string()
}

/// A trimmed line carries an argument when it is not empty and not a `#` comment.
pub open spec fn is_argument_line(t: Seq<char>) -> bool {
    t.len() > 0 && t[0] != '#'
}

/// The trimmed lines that carry an argument, in order.
pub open spec fn kept_arguments(lines: Seq<Seq<char>>) -> Seq<Seq<char>>
    decreases lines.len(),
{
    if lines.len() == 0 {
        Seq::empty()
    } else {
        let rest = kept_arguments(lines.drop_last());
        if is_argument_line(lines.last()) {
            rest.push(lines.last())
        } else {
            rest
        }
    }
}

/// Whether the trimmed line `t` carries an argument.
pub fn keeps_argument(t: &str) -> (r: bool)
    ensures
        r == is_argument_line(t@),
{
    t.unicode_len() > 0 && t.get_char(0) != '#'
}

/// The arguments among already trimmed lines: the blank and comment ones left out.
pub fn select_arguments(trimmed_lines: &Vec<String>) -> (r: Vec<String>)
    ensures
        r.deep_view() == kept_arguments(trimmed_lines.deep_view()),
{
    let ghost all = trimmed_lines.deep_view();
    let mut r: Vec<String> = Vec::new();
    let mut i: usize = 0;
    while i < trimmed_lines.len()
        invariant
            i <= trimmed_lines.len(),
            all == trimmed_lines.deep_view(),
            r.deep_view() == kept_arguments(all.subrange(0, i as int)),
        decreases trimmed_lines.len() - i,
    {
        proof {
            assert(all.subrange(0, i + 1).drop_last() =~= all.subrange(0, i as int));
            assert(all.subrange(0, i + 1).last() == trimmed_lines@[i as int]@);
        }
        if keeps_argument(trimmed_lines[i].as_str()) {
            let ghost before = r.deep_view();
            r.push(trimmed_lines[i].clone());
            proof {
                assert(r.deep_view() =~= before.push(trimmed_lines@[i as int]@));
            }
        }
        i = i + 1;
    }
    proof {
        assert(all.subrange(0, trimmed_lines.len() as int) =~= all);
    }
    r
}

/// The arguments of an arguments file with the text `content`: its lines, trimmed,
/// without the blank and comment ones.
pub fn parse_args_file(content: &str) -> (r: Vec<String>)
    ensures
        r.deep_view() == kept_arguments(lines_of(content@).map_values(|l: Seq<char>| trimmed(l))),
{
    let lines = split_lines(content);
    let mut trimmed_lines: Vec<String> = Vec::new();
    let mut i: usize = 0;
    while i < lines.len()
        invariant
            i <= lines.len(),
            trimmed_lines@.len() == i,
            forall|j: int| 0 <= j < i ==> #[trigger] trimmed_lines@[j]@ == trimmed(lines@[j]@),
        decreases lines.len() - i,
    {
        let t = trim_text(lines[i].as_str());
        trimmed_lines.push(t);
        i = i + 1;
    }
    proof {
        assert(trimmed_lines.deep_view() =~= lines.deep_view().map_values(
            |l: Seq<char>| trimmed(l),
        ));
    }
    select_arguments(&trimmed_lines)
}

} // verus!
