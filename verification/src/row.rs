//! A single line of text with positional edit operations.

use vstd::prelude::*;

use crate::text::{first_non_blank, lemma_first_non_space_is};

verus! {

/// What `render` returns: the slice of `s` between `start` and `end`,
/// clamped so that `start <= end <= s.len()`; out-of-range requests
/// yield an empty result instead of failing.
pub open spec fn render_spec(s: Seq<char>, start: int, end: int) -> Seq<char> {
    let end2 = if s.len() <= end { s.len() as int } else { end };
    let start2 = if start <= end2 { start } else { end2 };
    s.subrange(start2, end2)
}

/// The left part a row keeps after `split(at)`: everything before `at`,
/// or the whole row when `at` is out of range.
pub open spec fn split_left(s: Seq<char>, at: int) -> Seq<char> {
    if at < s.len() {
        s.subrange(0, at)
    } else {
        s
    }
}

/// The new row `split(at)` hands back: everything from `at` on,
/// or an empty row when `at` is out of range.
pub open spec fn split_right(s: Seq<char>, at: int) -> Seq<char> {
    if at < s.len() {
        s.subrange(at, s.len() as int)
    } else {
        Seq::empty()
    }
}

/// One line of the document's text, stored as a sequence of characters.
pub struct Row {
    chars: Vec<char>,
}

impl View for Row {
    type V = Seq<char>;

    closed spec fn view(&self) -> Seq<char> {
        self.chars@
    }
}

impl Default for Row {
    /// An empty row.
    fn default() -> (r: Row)
        ensures
            r@ == Seq::<char>::empty(),
    {
        Row { chars: Vec::new() }
    }
}

impl Row {
    /// A row never contains a newline character.
    pub open spec fn wf(&self) -> bool {
        forall|i: int| 0 <= i < self@.len() ==> self@[i] != '\n'
    }

    /// Builds a row from its characters.
    pub fn from_vec(chars: Vec<char>) -> (r: Row)
        ensures
            r@ == chars@,
    {
        Row { chars }
    }

    /// The visible slice of this row between columns `start` and `end`,
    /// clamped to the row's bounds.
    pub fn render(&self, start: usize, end: usize) -> (r: Vec<char>)
        ensures
            r@ == render_spec(self@, start as int, end as int),
    {
        let len = self.chars.len();
        let end2 = if len <= end { len } else { end };
        let start2 = if start <= end2 { start } else { end2 };
        let mut out: Vec<char> = Vec::new();
        let mut i = start2;
        while i < end2
            invariant
                start2 <= i <= end2 <= self.chars@.len(),
                out@ == self.chars@.subrange(start2 as int, i as int),
            decreases end2 - i,
        {
            out.push(self.chars[i]);
            proof {
                assert(out@ =~= self.chars@.subrange(start2 as int, i + 1 as int));
            }
            i = i + 1;
        }
        proof {
            assert(out@ =~= render_spec(self@, start as int, end as int));
        }
        out
    }

    /// Number of characters in the row.
    pub fn len(&self) -> (r: usize)
        ensures
            r == self@.len(),
    {
        self.chars.len()
    }

    /// Column of the first character that is not a space; 0 when the row
    /// is empty or all spaces.
    pub fn head(&self) -> (r: usize)
        ensures
            r == first_non_blank(self@),
    {
        let len = self.chars.len();
        let mut i: usize = 0;
        while i < len && self.chars[i] == ' '
            invariant
                i <= len,
                len == self.chars@.len(),
                forall|j: int| 0 <= j < i ==> self.chars@[j] == ' ',
            decreases len - i,
        {
            i = i + 1;
        }
        proof {
            lemma_first_non_space_is(self@, i as int);
        }
        if i == len {
            0
        } else {
            i
        }
    }

    /// Inserts `c` before column `at` (append allowed at `at == len`).
    pub fn insert(&mut self, at: usize, c: char)
        requires
            at <= old(self)@.len(),
            c != '\n',
        ensures
            final(self)@ == old(self)@.insert(at as int, c),
    {
        self.chars.insert(at, c);
    }

    /// Removes the character at column `at`.
    pub fn delete(&mut self, at: usize)
        requires
            at < old(self)@.len(),
        ensures
            final(self)@ == old(self)@.remove(at as int),
    {
        self.chars.remove(at);
    }

    /// Truncates this row to its first `at` characters and returns a new
    /// row holding the rest; when `at` is out of range, this row is left
    /// unchanged and the new row is empty.
    pub fn split(&mut self, at: usize) -> (r: Row)
        ensures
            final(self)@ == split_left(old(self)@, at as int),
            r@ == split_right(old(self)@, at as int),
    {
        if at < self.chars.len() {
            let tail = self.chars.split_off(at);
            Row { chars: tail }
        } else {
            Row { chars: Vec::new() }
        }
    }
}

/// Splitting a row of content `s` at `s.len()` leaves the row equal to `s`
/// and hands back an empty new row.
pub proof fn lemma_split_at_len(s: Seq<char>)
    ensures
        split_left(s, s.len() as int) == s,
        split_right(s, s.len() as int) == Seq::<char>::empty(),
{
}

/// Inserting a character at any offset `o` within a row's content and then
/// deleting at the same offset restores the original content.
pub proof fn lemma_insert_then_delete(s: Seq<char>, o: int, c: char)
    requires
        0 <= o <= s.len(),
    ensures
        s.insert(o, c).remove(o) == s,
{
    assert(s.insert(o, c).remove(o) =~= s);
}

} // verus!
