//! The mathematical model of buffer text: spec functions over `Seq<char>`
//! that define line coordinates (row and column of a buffer index), line
//! boundaries, and word boundaries, together with the lemmas relating them.

use vstd::prelude::*;

verus! {

/// A whitespace character: the Unicode `White_Space` set, as
/// `char::is_whitespace` recognises it. Runs of these separate words.
pub open spec fn is_whitespace(c: char) -> bool {
    c == ' ' || c == '\t' || c == '\n' || c == '\u{b}' || c == '\u{c}' || c == '\r'
        || c == '\u{85}' || c == '\u{a0}' || c == '\u{1680}' || c == '\u{2000}'
        || c == '\u{2001}' || c == '\u{2002}' || c == '\u{2003}' || c == '\u{2004}'
        || c == '\u{2005}' || c == '\u{2006}' || c == '\u{2007}' || c == '\u{2008}'
        || c == '\u{2009}' || c == '\u{200a}' || c == '\u{2028}' || c == '\u{2029}'
        || c == '\u{202f}' || c == '\u{205f}' || c == '\u{3000}'
}

/// Decides `is_whitespace` on a concrete character.
pub fn check_whitespace(c: char) -> (r: bool)
    ensures
        r == is_whitespace(c),
{
    c == ' ' || c == '\t' || c == '\n' || c == '\u{b}' || c == '\u{c}' || c == '\r'
        || c == '\u{85}' || c == '\u{a0}' || c == '\u{1680}' || c == '\u{2000}'
        || c == '\u{2001}' || c == '\u{2002}' || c == '\u{2003}' || c == '\u{2004}'
        || c == '\u{2005}' || c == '\u{2006}' || c == '\u{2007}' || c == '\u{2008}'
        || c == '\u{2009}' || c == '\u{200a}' || c == '\u{2028}' || c == '\u{2029}'
        || c == '\u{202f}' || c == '\u{205f}' || c == '\u{3000}'
}

/// Number of newline characters strictly before position `i`: the row of `i`.
pub open spec fn newlines_before(s: Seq<char>, i: int) -> int
    decreases i,
{
    if i <= 0 {
        0
    } else {
        newlines_before(s, i - 1) + if s[i - 1] == '\n' {
            1int
        } else {
            0int
        }
    }
}

/// Index just after the last newline strictly before `i`, or `0` if there is
/// none: the start of the line containing position `i`.
pub open spec fn line_start_before(s: Seq<char>, i: int) -> int
    decreases i,
{
    if i <= 0 {
        0
    } else if s[i - 1] == '\n' {
        i
    } else {
        line_start_before(s, i - 1)
    }
}

/// Column of position `i`: its distance from the start of its line.
pub open spec fn col_of(s: Seq<char>, i: int) -> int {
    i - line_start_before(s, i)
}

/// Number of lines: one more than the number of newline characters.
pub open spec fn line_count(s: Seq<char>) -> int {
    newlines_before(s, s.len() as int) + 1
}

/// Position of the first newline at or after `i`, or `s.len()` if there is
/// none: the exclusive end of the line starting at or containing `i`.
pub open spec fn next_newline(s: Seq<char>, i: int) -> int
    decreases s.len() - i,
{
    if i >= s.len() {
        s.len() as int
    } else if s[i] == '\n' {
        i
    } else {
        next_newline(s, i + 1)
    }
}

/// Start index of line `l`: `0` for line `0`, else one past the `l`-th newline.
/// Meaningful for `0 <= l < line_count(s)`.
pub open spec fn line_start(s: Seq<char>, l: int) -> int
    decreases l,
{
    if l <= 0 {
        0
    } else {
        next_newline(s, line_start(s, l - 1)) + 1
    }
}

/// Length of line `l`, excluding its terminating newline (if any).
pub open spec fn line_len(s: Seq<char>, l: int) -> int {
    next_newline(s, line_start(s, l)) - line_start(s, l)
}

/// Largest `j <= i` such that every character in `s[j..i]` is whitespace:
/// scanning backward from `i`, the position where the whitespace run ends.
pub open spec fn skip_whitespace_back(s: Seq<char>, i: int) -> int
    decreases i,
{
    if i <= 0 {
        0
    } else if is_whitespace(s[i - 1]) {
        skip_whitespace_back(s, i - 1)
    } else {
        i
    }
}

/// Largest `j <= i` such that no character in `s[j..i]` is whitespace:
/// scanning backward from `i`, the position where the word ends.
pub open spec fn skip_word_back(s: Seq<char>, i: int) -> int
    decreases i,
{
    if i <= 0 {
        0
    } else if !is_whitespace(s[i - 1]) {
        skip_word_back(s, i - 1)
    } else {
        i
    }
}

/// Start of the word ending at or before `i`: skip the whitespace run
/// immediately before `i` (if any), then skip the word before it.
pub open spec fn start_of_word(s: Seq<char>, i: int) -> int {
    skip_word_back(s, skip_whitespace_back(s, i))
}

/// Scanning forward from `i`, the position where the whitespace run ends,
/// bounded by `s.len()`: the smallest `j >= i` that is the buffer end or
/// carries a non-whitespace character.
pub open spec fn skip_whitespace_fwd(s: Seq<char>, i: int) -> int
    decreases s.len() - i,
{
    if i >= s.len() {
        s.len() as int
    } else if is_whitespace(s[i]) {
        skip_whitespace_fwd(s, i + 1)
    } else {
        i
    }
}

/// Scanning forward from `i`, the position where the word ends, bounded by
/// `s.len()`.
pub open spec fn skip_word_fwd(s: Seq<char>, i: int) -> int
    decreases s.len() - i,
{
    if i >= s.len() {
        s.len() as int
    } else if !is_whitespace(s[i]) {
        skip_word_fwd(s, i + 1)
    } else {
        i
    }
}

/// End of the word starting at or after `i`: skip the whitespace run at `i`
/// (if any), then skip the word, landing on the first whitespace character
/// after it or on `s.len()`. An `i` at or past the end is returned unchanged.
pub open spec fn end_of_word(s: Seq<char>, i: int) -> int {
    if i >= s.len() {
        i
    } else {
        skip_word_fwd(s, skip_whitespace_fwd(s, i))
    }
}

/// The buffer index after a one-row upward move from position `i`: stay put
/// on row 0; otherwise land on the row above, at the same column when that
/// row is long enough, else at its end.
pub open spec fn index_after_up(s: Seq<char>, i: int) -> int {
    let r = newlines_before(s, i);
    if r == 0 {
        i
    } else {
        let c = col_of(s, i);
        let t = r - 1;
        line_start(s, t) + if c <= line_len(s, t) {
            c
        } else {
            line_len(s, t)
        }
    }
}

/// The buffer index after a one-row downward move from position `i`: stay
/// put on the last row; otherwise land on the row below, at the same column
/// when that row is long enough, else at its end.
pub open spec fn index_after_down(s: Seq<char>, i: int) -> int {
    let r = newlines_before(s, i);
    if r >= line_count(s) - 1 {
        i
    } else {
        let c = col_of(s, i);
        let t = r + 1;
        line_start(s, t) + if c <= line_len(s, t) {
            c
        } else {
            line_len(s, t)
        }
    }
}

/// `s` with the characters of `[start, end)` removed; ranges that are empty,
/// reversed, or beyond the end leave `s` unchanged.
pub open spec fn remove_range(s: Seq<char>, start: int, end: int) -> Seq<char> {
    if 0 <= start && start < end && end <= s.len() {
        s.subrange(0, start) + s.subrange(end, s.len() as int)
    } else {
        s
    }
}

/// A position's row is non-negative and at most the position itself.
pub proof fn lemma_newlines_before_bounds(s: Seq<char>, i: int)
    requires
        0 <= i,
    ensures
        0 <= newlines_before(s, i) <= i,
    decreases i,
{
    if i > 0 {
        lemma_newlines_before_bounds(s, i - 1);
    }
}

/// Rows never decrease along the buffer, and grow at most by the distance.
pub proof fn lemma_newlines_before_monotone(s: Seq<char>, i: int, j: int)
    requires
        0 <= i <= j,
    ensures
        newlines_before(s, i) <= newlines_before(s, j) <= newlines_before(s, i) + (j - i),
    decreases j,
{
    if i < j {
        lemma_newlines_before_monotone(s, i, j - 1);
    }
}

/// The start of the line containing `i` lies in `[0, i]`, sits just after a
/// newline (or at the buffer start), and no newline lies between it and `i`.
pub proof fn lemma_line_start_before_props(s: Seq<char>, i: int)
    requires
        0 <= i,
    ensures
        0 <= line_start_before(s, i) <= i,
        line_start_before(s, i) == 0 || s[line_start_before(s, i) - 1] == '\n',
        forall|k: int| line_start_before(s, i) <= k < i ==> s[k] != '\n',
    decreases i,
{
    if i > 0 && s[i - 1] != '\n' {
        lemma_line_start_before_props(s, i - 1);
    }
}

/// Positions with no newline between them share a row and a line start.
pub proof fn lemma_same_line(s: Seq<char>, a: int, b: int)
    requires
        0 <= a <= b,
        forall|k: int| a <= k < b ==> s[k] != '\n',
    ensures
        newlines_before(s, b) == newlines_before(s, a),
        line_start_before(s, b) == line_start_before(s, a),
    decreases b,
{
    if a < b {
        lemma_same_line(s, a, b - 1);
    }
}

/// `next_newline` lands inside `[i, s.len()]`, on a newline unless at the
/// end, with no newline in between.
pub proof fn lemma_next_newline_props(s: Seq<char>, i: int)
    requires
        0 <= i <= s.len(),
    ensures
        i <= next_newline(s, i) <= s.len(),
        next_newline(s, i) < s.len() ==> s[next_newline(s, i)] == '\n',
        forall|k: int| i <= k < next_newline(s, i) ==> s[k] != '\n',
    decreases s.len() - i,
{
    if i < s.len() && s[i] != '\n' {
        lemma_next_newline_props(s, i + 1);
    }
}

/// A position at a newline (or the end) with none between it and `i` is
/// exactly `next_newline(s, i)`.
pub proof fn lemma_next_newline_unique(s: Seq<char>, i: int, j: int)
    requires
        0 <= i <= j <= s.len(),
        forall|k: int| i <= k < j ==> s[k] != '\n',
        j == s.len() || s[j] == '\n',
    ensures
        next_newline(s, i) == j,
    decreases j - i,
{
    if i < j {
        lemma_next_newline_unique(s, i + 1, j);
    }
}

/// Line `l` starts inside the buffer, at a line boundary, and its start has
/// row `l`.
pub proof fn lemma_line_start_props(s: Seq<char>, l: int)
    requires
        0 <= l < line_count(s),
    ensures
        0 <= line_start(s, l) <= s.len(),
        line_start(s, l) == 0 || s[line_start(s, l) - 1] == '\n',
        newlines_before(s, line_start(s, l)) == l,
    decreases l,
{
    if l > 0 {
        lemma_line_start_props(s, l - 1);
        let p = line_start(s, l - 1);
        lemma_next_newline_props(s, p);
        let n = next_newline(s, p);
        lemma_same_line(s, p, n);
        if n == s.len() {
            // Then the buffer ends inside line `l - 1`, so there is no line `l`.
            assert(newlines_before(s, s.len() as int) == l - 1);
            assert(false);
        }
        assert(newlines_before(s, n + 1) == newlines_before(s, n) + 1);
    }
}

/// The start of the line containing `i`, looked up by row number, agrees
/// with the backward scan from `i`.
pub proof fn lemma_line_start_of_row(s: Seq<char>, i: int)
    requires
        0 <= i <= s.len(),
    ensures
        line_start(s, newlines_before(s, i)) == line_start_before(s, i),
    decreases i,
{
    if i > 0 {
        lemma_line_start_of_row(s, i - 1);
        lemma_newlines_before_bounds(s, i - 1);
        if s[i - 1] == '\n' {
            lemma_line_start_before_props(s, i - 1);
            lemma_next_newline_unique(s, line_start_before(s, i - 1), i - 1);
        }
    }
}

/// Offsets up to a line's length stay on that line: such a position is in
/// the buffer, has row `l`, and has the line's start as its line start.
pub proof fn lemma_position_on_line(s: Seq<char>, l: int, c: int)
    requires
        0 <= l < line_count(s),
        0 <= c <= line_len(s, l),
    ensures
        line_start(s, l) + c <= s.len(),
        newlines_before(s, line_start(s, l) + c) == l,
        line_start_before(s, line_start(s, l) + c) == line_start(s, l),
{
    let a = line_start(s, l);
    lemma_line_start_props(s, l);
    lemma_next_newline_props(s, a);
    lemma_same_line(s, a, a + c);
    assert(line_start_before(s, a) == a);
}

/// A line's length is non-negative and the line fits inside the buffer.
pub proof fn lemma_line_len_bounds(s: Seq<char>, l: int)
    requires
        0 <= l < line_count(s),
    ensures
        0 <= line_len(s, l),
        line_start(s, l) + line_len(s, l) <= s.len(),
{
    lemma_line_start_props(s, l);
    lemma_next_newline_props(s, line_start(s, l));
}

/// Vertical movement preserves the column when possible: from a position
/// that is not on the last row, moving down lands on the next row, at the
/// same column whenever that row is long enough, and else at its end.
pub proof fn lemma_down_preserves_column(s: Seq<char>, i: int)
    requires
        0 <= i <= s.len(),
        newlines_before(s, i) < line_count(s) - 1,
    ensures
        newlines_before(s, index_after_down(s, i)) == newlines_before(s, i) + 1,
        col_of(s, index_after_down(s, i)) == (if col_of(s, i) <= line_len(
            s,
            newlines_before(s, i) + 1,
        ) {
            col_of(s, i)
        } else {
            line_len(s, newlines_before(s, i) + 1)
        }),
{
    let t = newlines_before(s, i) + 1;
    lemma_newlines_before_bounds(s, i);
    lemma_line_start_before_props(s, i);
    lemma_line_len_bounds(s, t);
    let m = if col_of(s, i) <= line_len(s, t) {
        col_of(s, i)
    } else {
        line_len(s, t)
    };
    lemma_position_on_line(s, t, m);
}

/// Vertical movement preserves the column when possible: from a position
/// that is not on row 0, moving up lands on the row above, at the same
/// column whenever that row is long enough, and else at its end.
pub proof fn lemma_up_preserves_column(s: Seq<char>, i: int)
    requires
        0 <= i <= s.len(),
        newlines_before(s, i) > 0,
    ensures
        newlines_before(s, index_after_up(s, i)) == newlines_before(s, i) - 1,
        col_of(s, index_after_up(s, i)) == (if col_of(s, i) <= line_len(
            s,
            newlines_before(s, i) - 1,
        ) {
            col_of(s, i)
        } else {
            line_len(s, newlines_before(s, i) - 1)
        }),
{
    let t = newlines_before(s, i) - 1;
    lemma_newlines_before_monotone(s, i, s.len() as int);
    lemma_line_start_before_props(s, i);
    lemma_line_len_bounds(s, t);
    let m = if col_of(s, i) <= line_len(s, t) {
        col_of(s, i)
    } else {
        line_len(s, t)
    };
    lemma_position_on_line(s, t, m);
}

/// Backward whitespace and word scans stay inside `[0, i]`.
pub proof fn lemma_skip_whitespace_back_bounds(s: Seq<char>, i: int)
    requires
        0 <= i,
    ensures
        0 <= skip_whitespace_back(s, i) <= i,
    decreases i,
{
    if i > 0 && is_whitespace(s[i - 1]) {
        lemma_skip_whitespace_back_bounds(s, i - 1);
    }
}

/// See `lemma_skip_whitespace_back_bounds`.
pub proof fn lemma_skip_word_back_bounds(s: Seq<char>, i: int)
    requires
        0 <= i,
    ensures
        0 <= skip_word_back(s, i) <= i,
    decreases i,
{
    if i > 0 && !is_whitespace(s[i - 1]) {
        lemma_skip_word_back_bounds(s, i - 1);
    }
}

/// The start of the word ending at or before `i` lies in `[0, i]`.
pub proof fn lemma_start_of_word_bounds(s: Seq<char>, i: int)
    requires
        0 <= i,
    ensures
        0 <= start_of_word(s, i) <= i,
{
    lemma_skip_whitespace_back_bounds(s, i);
    lemma_skip_word_back_bounds(s, skip_whitespace_back(s, i));
}

/// Forward whitespace and word scans stay inside `[i, s.len()]`.
pub proof fn lemma_skip_whitespace_fwd_bounds(s: Seq<char>, i: int)
    requires
        0 <= i <= s.len(),
    ensures
        i <= skip_whitespace_fwd(s, i) <= s.len(),
    decreases s.len() - i,
{
    if i < s.len() && is_whitespace(s[i]) {
        lemma_skip_whitespace_fwd_bounds(s, i + 1);
    }
}

/// See `lemma_skip_whitespace_fwd_bounds`.
pub proof fn lemma_skip_word_fwd_bounds(s: Seq<char>, i: int)
    requires
        0 <= i <= s.len(),
    ensures
        i <= skip_word_fwd(s, i) <= s.len(),
    decreases s.len() - i,
{
    if i < s.len() && !is_whitespace(s[i]) {
        lemma_skip_word_fwd_bounds(s, i + 1);
    }
}

/// The end of the word starting at or after `i` lies in `[i, s.len()]`
/// whenever `i` does.
pub proof fn lemma_end_of_word_bounds(s: Seq<char>, i: int)
    requires
        0 <= i <= s.len(),
    ensures
        i <= end_of_word(s, i) <= s.len(),
{
    if i < s.len() {
        lemma_skip_whitespace_fwd_bounds(s, i);
        lemma_skip_word_fwd_bounds(s, skip_whitespace_fwd(s, i));
    }
}

} // verus!
