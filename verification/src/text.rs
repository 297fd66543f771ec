//! Spec-level model of a text buffer: where its first newline sits, how it
//! splits into lines, and where a line's first non-blank column is.

use vstd::prelude::*;

verus! {

/// Index of the first newline in `s`, or `s.len()` when there is none.
pub open spec fn first_nl(s: Seq<char>) -> nat
    decreases s.len(),
{
    if s.len() == 0 {
        0
    } else if s[0] == '\n' {
        0
    } else {
        (first_nl(s.skip(1)) + 1) as nat
    }
}

pub proof fn lemma_first_nl(s: Seq<char>)
    ensures
        first_nl(s) <= s.len(),
        forall|i: int| 0 <= i < first_nl(s) ==> s[i] != '\n',
        first_nl(s) < s.len() ==> s[first_nl(s) as int] == '\n',
    decreases s.len(),
{
    if s.len() == 0 {
    } else if s[0] == '\n' {
    } else {
        lemma_first_nl(s.skip(1));
        assert forall|i: int| 0 <= i < first_nl(s) implies s[i] != '\n' by {
            if i > 0 {
                assert(s.skip(1)[i - 1] == s[i]);
            }
        }
        if first_nl(s) < s.len() {
            assert(s.skip(1)[first_nl(s) - 1] == s[first_nl(s) as int]);
        }
    }
}

/// `first_nl` is pinned down by its characteristic properties.
pub proof fn lemma_first_nl_is(s: Seq<char>, m: int)
    requires
        0 <= m <= s.len(),
        forall|i: int| 0 <= i < m ==> s[i] != '\n',
        m < s.len() ==> s[m] == '\n',
    ensures
        first_nl(s) == m,
{
    lemma_first_nl(s);
    if first_nl(s) < m {
        assert(s[first_nl(s) as int] == '\n');
        assert(s[first_nl(s) as int] != '\n');
    }
    if first_nl(s) > m {
        assert(s[m] != '\n');
    }
}

/// A line terminated by a newline loses one trailing carriage return.
pub open spec fn strip_cr(s: Seq<char>) -> Seq<char> {
    if s.len() > 0 && s[s.len() - 1] == '\r' {
        s.drop_last()
    } else {
        s
    }
}

/// The lines of a text: split on each newline, with one carriage return
/// dropped ahead of every newline; a final fragment with no terminating
/// newline is kept whole, and a terminating newline at the very end does
/// not add an empty last line.
pub open spec fn lines_of(s: Seq<char>) -> Seq<Seq<char>>
    decreases s.len(),
{
    if s.len() == 0 {
        Seq::empty()
    } else {
        let k = first_nl(s);
        if k >= s.len() {
            seq![s]
        } else {
            seq![strip_cr(s.subrange(0, k as int))] + lines_of(s.skip((k + 1) as int))
        }
    }
}

/// No line produced by `lines_of` contains a newline.
pub proof fn lemma_lines_of_wf(s: Seq<char>)
    ensures
        forall|i: int, j: int|
            0 <= i < lines_of(s).len() && 0 <= j < lines_of(s)[i].len()
                ==> lines_of(s)[i][j] != '\n',
    decreases s.len(),
{
    lemma_first_nl(s);
    if s.len() == 0 {
    } else {
        let k = first_nl(s);
        if k >= s.len() {
            assert forall|i: int, j: int|
                0 <= i < lines_of(s).len() && 0 <= j < lines_of(s)[i].len()
                    implies lines_of(s)[i][j] != '\n' by {
                assert(lines_of(s)[i] == s);
            }
        } else {
            lemma_lines_of_wf(s.skip((k + 1) as int));
            assert forall|i: int, j: int|
                0 <= i < lines_of(s).len() && 0 <= j < lines_of(s)[i].len()
                    implies lines_of(s)[i][j] != '\n' by {
                if i == 0 {
                    assert(lines_of(s)[0] == strip_cr(s.subrange(0, k as int)));
                    assert(s.subrange(0, k as int)[j] == s[j]);
                } else {
                    assert(lines_of(s)[i] == lines_of(s.skip((k + 1) as int))[i - 1]);
                }
            }
        }
    }
}

/// Index of the first character of `s` that is not a space, or `s.len()`
/// when the whole of `s` is spaces.
pub open spec fn first_non_space(s: Seq<char>) -> nat
    decreases s.len(),
{
    if s.len() == 0 {
        0
    } else if s[0] != ' ' {
        0
    } else {
        (first_non_space(s.skip(1)) + 1) as nat
    }
}

pub proof fn lemma_first_non_space(s: Seq<char>)
    ensures
        first_non_space(s) <= s.len(),
        forall|i: int| 0 <= i < first_non_space(s) ==> s[i] == ' ',
        first_non_space(s) < s.len() ==> s[first_non_space(s) as int] != ' ',
    decreases s.len(),
{
    if s.len() == 0 {
    } else if s[0] != ' ' {
    } else {
        lemma_first_non_space(s.skip(1));
        assert forall|i: int| 0 <= i < first_non_space(s) implies s[i] == ' ' by {
            if i > 0 {
                assert(s.skip(1)[i - 1] == s[i]);
            }
        }
        if first_non_space(s) < s.len() {
            assert(s.skip(1)[first_non_space(s) - 1] == s[first_non_space(s) as int]);
        }
    }
}

/// `first_non_space` is pinned down by its characteristic properties.
pub proof fn lemma_first_non_space_is(s: Seq<char>, m: int)
    requires
        0 <= m <= s.len(),
        forall|i: int| 0 <= i < m ==> s[i] == ' ',
        m < s.len() ==> s[m] != ' ',
    ensures
        first_non_space(s) == m,
{
    lemma_first_non_space(s);
    if first_non_space(s) < m {
        assert(s[first_non_space(s) as int] != ' ');
        assert(s[first_non_space(s) as int] == ' ');
    }
    if first_non_space(s) > m {
        assert(s[m] == ' ');
    }
}

/// Column of the first non-space character of a line; 0 when the line is
/// empty or all spaces.
pub open spec fn first_non_blank(s: Seq<char>) -> nat {
    if first_non_space(s) >= s.len() {
        0
    } else {
        first_non_space(s)
    }
}

} // verus!
