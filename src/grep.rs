use vstd::prelude::*;

use crate::text::{contains, contains_literal, occurs_at};

verus! {

/// What one line contributes to the output of a search for `pattern`:
/// the line and a line break when it holds `pattern`, nothing otherwise.
pub open spec fn line_output(line: Seq<char>, pattern: Seq<char>) -> Seq<char> {
    if contains(line, pattern) {
        line.push('\n')
    } else {
        Seq::empty()
    }
}

/// The output of a search for `pattern` over `lines`: the matching lines,
/// in their order, each followed by a line break.
pub open spec fn grep_output(lines: Seq<Seq<char>>, pattern: Seq<char>) -> Seq<char>
    decreases lines.len(),
{
    if lines.len() == 0 {
        Seq::empty()
    } else {
        grep_output(lines.drop_last(), pattern) + line_output(lines.last(), pattern)
    }
}

/// Every line, in order, each followed by a line break.
pub open spec fn all_lines_output(lines: Seq<Seq<char>>) -> Seq<char>
    decreases lines.len(),
{
    if lines.len() == 0 {
        Seq::empty()
    } else {
        all_lines_output(lines.drop_last()) + lines.last().push('\n')
    }
}

/// Appends `line` and a line break to `out` when `line` holds `pattern`;
/// leaves `out` as it was otherwise. Scanning a file is one call per line.
pub fn push_matching_line(out: &mut String, line: &str, pattern: &str)
    ensures
        final(out)@ == old(out)@ + line_output(line@, pattern@),
{
    if contains_literal(line, pattern) {
        out.append(line);
        out.append("\n");
        proof {
            reveal_strlit("\n");
        }
        assert(final(out)@ =~= old(out)@ + line@.push('\n'));
    } else {
        assert(old(out)@ + line_output(line@, pattern@) =~= old(out)@);
    }
}

/// The lines of `lines` that hold `pattern` as a literal, case-sensitive
/// substring, in their order, each followed by a line break.
pub fn grep_lines(lines: &Vec<String>, pattern: &str) -> (r: String)
    ensures
        r@ == grep_output(lines.deep_view(), pattern@),
{
    let mut out = String::new();
    let mut i: usize = 0;
    while i < lines.len()
        invariant
            i <= lines@.len(),
            out@ == grep_output(lines.deep_view().take(i as int), pattern@),
        decreases lines@.len() - i,
    {
        let ghost before = out@;
        push_matching_line(&mut out, lines[i].as_str(), pattern);
        proof {
            let ls = lines.deep_view();
            assert(ls.take(i + 1).drop_last() =~= ls.take(i as int));
            assert(ls[i as int] == lines@[i as int]@);
        }
        i = i + 1;
    }
    assert(lines.deep_view().take(lines@.len() as int) =~= lines.deep_view());
    out
}

/// The empty pattern matches every line: a search for it gives back every
/// line, in order, each followed by a line break.
pub proof fn empty_pattern_keeps_every_line(lines: Seq<Seq<char>>)
    ensures
        grep_output(lines, Seq::empty()) == all_lines_output(lines),
    decreases lines.len(),
{
    if lines.len() > 0 {
        empty_pattern_keeps_every_line(lines.drop_last());
        let line = lines.last();
        assert(occurs_at(line, Seq::empty(), 0)) by {
            assert(line.subrange(0, 0) =~= Seq::<char>::empty());
        }
    }
}

} // verus!
