//! The output history: a list of lines that keeps only the newest `MAX_OUTPUT`.
use vstd::prelude::*;

verus! {

/// The most lines the output history keeps.
pub const MAX_OUTPUT: usize = 500;

/// The newest `MAX_OUTPUT` lines of `lines`.
pub open spec fn capped(lines: Seq<Seq<char>>) -> Seq<Seq<char>> {
    if lines.len() > MAX_OUTPUT {
        lines.skip(lines.len() - MAX_OUTPUT)
    } else {
        lines
    }
}

/// Capping after each appended line keeps the same lines as capping once after all of
/// them: the history always holds the newest `MAX_OUTPUT` lines of everything written.
pub proof fn lemma_capped_append(old_lines: Seq<Seq<char>>, new_lines: Seq<Seq<char>>)
    ensures
        capped(capped(old_lines) + new_lines) == capped(old_lines + new_lines),
{
    let a = old_lines;
    let b = new_lines;
    if a.len() > MAX_OUTPUT {
        let ca = a.skip(a.len() - MAX_OUTPUT);
        assert(capped(ca + b) =~= capped(a + b));
    }
}

/// Appending one line and capping, step by step, equals capping the whole.
pub proof fn lemma_capped_push(lines: Seq<Seq<char>>, line: Seq<char>)
    ensures
        capped(capped(lines).push(line)) == capped(lines.push(line)),
{
    lemma_capped_append(lines, seq![line]);
    assert(capped(lines).push(line) =~= capped(lines) + seq![line]);
    assert(lines.push(line) =~= lines + seq![line]);
}

/// A capped history never holds more than `MAX_OUTPUT` lines, and ends with the newest line.
pub proof fn lemma_capped_bound(lines: Seq<Seq<char>>)
    ensures
        capped(lines).len() <= MAX_OUTPUT || capped(lines) == lines,
        capped(lines).len() == if lines.len() > MAX_OUTPUT { MAX_OUTPUT as int } else { lines.len() as int },
        lines.len() > 0 ==> capped(lines).last() == lines.last(),
{
}

} // verus!
