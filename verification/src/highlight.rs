//! Rendering a line with matched character positions wrapped in terminal
//! color-escape sequences.
//!
//! The walk is by character position, not byte offset: position `i` of the
//! line is wrapped exactly when it equals the next still-pending entry of the
//! index list, which is then consumed. Indices that can no longer match any
//! later position are never consumed and leave the rest of the line unmarked.

use vstd::prelude::*;

verus! {

/// The escape that opens a highlighted span (red foreground).
pub open spec fn mark_open() -> Seq<char> {
    seq!['\u{1b}', '[', '3', '1', 'm']
}

/// The escape that closes a highlighted span.
pub open spec fn mark_close() -> Seq<char> {
    seq!['\u{1b}', '[', '0', 'm']
}

/// A single character wrapped in the highlight escapes.
pub open spec fn marked(ch: char) -> Seq<char> {
    mark_open() + seq![ch] + mark_close()
}

/// What highlighting produces from position `i` of `line` onward, with `j`
/// pointing at the next entry of `indices` that is still pending.
pub open spec fn highlight_from(line: Seq<char>, indices: Seq<u32>, i: int, j: int) -> Seq<char>
    decreases line.len() - i,
{
    if i < 0 || i >= line.len() {
        Seq::empty()
    } else if 0 <= j < indices.len() && indices[j] as int == i {
        marked(line[i]) + highlight_from(line, indices, i + 1, j + 1)
    } else {
        seq![line[i]] + highlight_from(line, indices, i + 1, j)
    }
}

/// The highlighted form of `line` under the index list `indices`.
pub open spec fn highlight(line: Seq<char>, indices: Seq<u32>) -> Seq<char> {
    highlight_from(line, indices, 0, 0)
}

/// Once every index has been consumed, the rest of the line passes through
/// unchanged.
proof fn lemma_highlight_no_pending(line: Seq<char>, indices: Seq<u32>, i: int, j: int)
    requires
        0 <= i <= line.len(),
        j >= indices.len(),
    ensures
        highlight_from(line, indices, i, j) == line.skip(i),
    decreases line.len() - i,
{
    if i < line.len() {
        lemma_highlight_no_pending(line, indices, i + 1, j);
        assert(highlight_from(line, indices, i, j) =~= line.skip(i));
    } else {
        assert(line.skip(i) =~= Seq::<char>::empty());
    }
}

/// Law: highlighting with an empty index list returns the input line
/// unchanged.
pub proof fn lemma_highlight_empty_indices(line: Seq<char>)
    ensures
        highlight(line, Seq::empty()) == line,
{
    lemma_highlight_no_pending(line, Seq::empty(), 0, 0);
    assert(line.skip(0) =~= line);
}

/// Law: a line with zero characters highlights to the empty string, whatever
/// the index list holds.
pub proof fn lemma_highlight_empty_line(line: Seq<char>, indices: Seq<u32>)
    requires
        line.len() == 0,
    ensures
        highlight(line, indices) == Seq::<char>::empty(),
{
}

/// Wraps each character of `line` whose position stands in `indices` in the
/// highlight escapes and passes every other character through.
pub fn highlight_matches(line: &str, indices: &[u32]) -> (ret: String)
    requires
        line@.len() <= u32::MAX,
    ensures
        ret@ == highlight(line@, indices@),
{
    let n: usize = line.unicode_len();
    let mut ret = String::new();
    let mut i: usize = 0;
    let mut j: usize = 0;
    while i < n
        invariant
            n == line@.len(),
            n <= u32::MAX,
            i <= n,
            j <= indices@.len(),
            highlight(line@, indices@) == ret@ + highlight_from(
                line@,
                indices@,
                i as int,
                j as int,
            ),
        decreases n - i,
    {
        let ch = line.get_char(i);
        let ghost ret_before = ret@;
        if j < indices.len() && indices[j] == i as u32 {
            ret.push('\u{1b}');
            ret.push('[');
            ret.push('3');
            ret.push('1');
            ret.push('m');
            ret.push(ch);
            ret.push('\u{1b}');
            ret.push('[');
            ret.push('0');
            ret.push('m');
            proof {
                assert(ret@ =~= ret_before + marked(line@[i as int]));
            }
            j = j + 1;
        } else {
            ret.push(ch);
            proof {
                assert(ret@ =~= ret_before + seq![line@[i as int]]);
            }
        }
        i = i + 1;
    }
    ret
}

} // verus!
