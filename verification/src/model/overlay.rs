//! The size, in lines and characters, that a text annotation takes up.

use vstd::prelude::*;

verus! {

/// Index of the first `'\n'` in `s`, or the length of `s` when there is none.
pub open spec fn first_newline(s: Seq<char>) -> nat
    decreases s.len(),
{
    if s.len() == 0 {
        0
    } else if s[0] == '\n' {
        0
    } else {
        1 + first_newline(s.drop_first())
    }
}

/// `line` without one `'\r'` at its end (the rest of a `"\r\n"` terminator).
pub open spec fn strip_carriage_return(line: Seq<char>) -> Seq<char> {
    if line.len() > 0 && line.last() == '\r' {
        line.drop_last()
    } else {
        line
    }
}

/// The lines `str::lines` yields: pieces ended by `'\n'` or `"\r\n"` (the
/// terminator not included), the last one possibly unterminated.
pub open spec fn text_lines(s: Seq<char>) -> Seq<Seq<char>>
    decreases s.len(),
{
    if s.len() == 0 {
        Seq::empty()
    } else {
        let i = first_newline(s);
        if i >= s.len() {
            seq![s]
        } else {
            seq![strip_carriage_return(s.take(i as int))] + text_lines(s.skip(i as int + 1))
        }
    }
}

/// The length of the longest of `lines` (0 for none).
pub open spec fn longest_line(lines: Seq<Seq<char>>) -> nat
    decreases lines.len(),
{
    if lines.len() == 0 {
        0
    } else {
        let rest = longest_line(lines.drop_last());
        if lines.last().len() > rest {
            lines.last().len()
        } else {
            rest
        }
    }
}

/// The extent of a text annotation: its number of lines and the character count
/// of its longest line, each at least 1 when the text has no lines at all.
pub open spec fn text_extent(text: Seq<char>) -> (nat, nat) {
    let lines = text_lines(text);
    if lines.len() == 0 {
        (1, 1)
    } else {
        (lines.len(), longest_line(lines))
    }
}

proof fn lemma_first_newline_at(s: Seq<char>, k: int)
    requires
        0 <= k <= s.len(),
        forall|j: int| 0 <= j < k ==> s[j] != '\n',
        k == s.len() || s[k] == '\n',
    ensures
        first_newline(s) == k,
    decreases s.len(),
{
    if s.len() > 0 && k > 0 {
        assert forall|j: int| 0 <= j < k - 1 implies s.drop_first()[j] != '\n' by {
            assert(s.drop_first()[j] == s[j + 1]);
        }
        lemma_first_newline_at(s.drop_first(), k - 1);
    }
}

proof fn lemma_longest_line_push(lines: Seq<Seq<char>>, line: Seq<char>)
    ensures
        longest_line(lines.push(line)) == if line.len() > longest_line(lines) {
            line.len()
        } else {
            longest_line(lines)
        },
{
    assert(lines.push(line).drop_last() =~= lines);
}

proof fn lemma_longest_line_bound(lines: Seq<Seq<char>>, bound: nat)
    requires
        forall|i: int| 0 <= i < lines.len() ==> (#[trigger] lines[i]).len() <= bound,
    ensures
        longest_line(lines) <= bound,
    decreases lines.len(),
{
    if lines.len() > 0 {
        lemma_longest_line_bound(lines.drop_last(), bound);
        assert(lines.last() == lines[lines.len() - 1]);
    }
}

/// Measures a text annotation: how many lines it has and how many characters its
/// longest line holds (both 1 when the text yields no lines).
pub fn text_extent_of(text: &str) -> (extent: (usize, usize))
    ensures
        extent.0 as nat == text_extent(text@).0,
        extent.1 as nat == text_extent(text@).1,
{
    let ghost s = text@;
    let n = text.unicode_len();
    let mut done_count: usize = 0;
    let mut longest: usize = 0;
    let ghost mut done: Seq<Seq<char>> = Seq::empty();
    let mut start: usize = 0;
    let mut i: usize = 0;
    assert(s.skip(0) =~= s);
    while i < n
        invariant
            s == text@,
            n == s.len(),
            start <= i <= n,
            done_count == done.len(),
            done_count <= start,
            longest as nat == longest_line(done),
            longest <= start,
            forall|j: int| start <= j < i ==> s[j] != '\n',
            text_lines(s) == done + text_lines(s.skip(start as int)),
        decreases n - i,
    {
        if text.get_char(i) == '\n' {
            let ghost rest = s.skip(start as int);
            proof {
                assert forall|j: int| 0 <= j < i - start implies rest[j] != '\n' by {
                    assert(rest[j] == s[start + j]);
                }
                assert(rest[i - start] == s[i as int]);
                lemma_first_newline_at(rest, i - start);
                assert(rest.skip(i - start + 1) =~= s.skip(i + 1));
                assert(rest.take(i - start) =~= s.subrange(start as int, i as int));
            }
            let ghost line = strip_carriage_return(s.subrange(start as int, i as int));
            let mut len: usize = i - start;
            if len > 0 && text.get_char(i - 1) == '\r' {
                len = len - 1;
            }
            assert(line.len() == len);
            proof {
                lemma_longest_line_push(done, line);
                assert(done.push(line) + text_lines(s.skip(i + 1)) =~= done + (seq![line]
                    + text_lines(s.skip(i + 1))));
                done = done.push(line);
            }
            if len > longest {
                longest = len;
            }
            done_count = done_count + 1;
            start = i + 1;
        }
        i = i + 1;
    }
    if start < n {
        let ghost rest = s.skip(start as int);
        proof {
            assert forall|j: int| 0 <= j < rest.len() implies rest[j] != '\n' by {
                assert(rest[j] == s[start + j]);
            }
            lemma_first_newline_at(rest, rest.len() as int);
            lemma_longest_line_push(done, rest);
            assert(text_lines(s) =~= done.push(rest));
            done = done.push(rest);
        }
        let len = n - start;
        if len > longest {
            longest = len;
        }
        done_count = done_count + 1;
    } else {
        assert(s.skip(start as int).len() == 0);
        assert(text_lines(s) =~= done);
    }
    if done_count == 0 {
        (1, 1)
    } else {
        (done_count, longest)
    }
}

} // verus!
