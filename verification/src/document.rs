//! An ordered collection of rows plus an optional source-file association;
//! owns every multi-line structural edit.

use vstd::prelude::*;

use crate::editor::Position;
use crate::row::{Row, split_left, split_right};
use crate::text::{first_non_blank, lemma_first_nl_is, lemma_lines_of_wf, lines_of, strip_cr};

verus! {

/// What `begin_insert` does to the buffer: the `o`/`O` commands insert an
/// empty row just below/above `at.y`; every other command leaves it alone.
pub open spec fn begin_insert_contents(c0: Seq<Seq<char>>, at: Position, mode: char) -> Seq<
    Seq<char>,
> {
    if mode == 'o' {
        c0.insert(at.y + 1, Seq::<char>::empty())
    } else if mode == 'O' {
        c0.insert(at.y as int, Seq::<char>::empty())
    } else {
        c0
    }
}

/// The insertion point `begin_insert` answers for each modal entry command;
/// an unrecognized command char behaves like plain insert (`i`).
pub open spec fn begin_insert_pos(c0: Seq<Seq<char>>, at: Position, mode: char) -> Position {
    if mode == 'I' {
        Position { x: first_non_blank(c0[at.y as int]) as usize, y: at.y }
    } else if mode == 'a' {
        Position { x: (at.x + 1) as usize, y: at.y }
    } else if mode == 'A' {
        Position { x: c0[at.y as int].len() as usize, y: at.y }
    } else if mode == 'o' {
        Position { x: 0, y: (at.y + 1) as usize }
    } else if mode == 'O' {
        Position { x: 0, y: at.y }
    } else {
        at
    }
}

/// What `insert` does to the buffer: a newline splits row `at.y` at column
/// `at.x`, the tail landing on a new row just below; any other character
/// lands in the row at `at.x`.
pub open spec fn insert_contents(c0: Seq<Seq<char>>, at: Position, c: char) -> Seq<Seq<char>> {
    if c == '\n' {
        c0.update(at.y as int, split_left(c0[at.y as int], at.x as int)).insert(
            at.y + 1,
            split_right(c0[at.y as int], at.x as int),
        )
    } else {
        c0.update(at.y as int, c0[at.y as int].insert(at.x as int, c))
    }
}

/// The position `insert` answers: the start of the new row after a newline,
/// one column right of `at` otherwise.
pub open spec fn insert_pos(at: Position, c: char) -> Position {
    if c == '\n' {
        Position { x: 0, y: (at.y + 1) as usize }
    } else {
        Position { x: (at.x + 1) as usize, y: at.y }
    }
}

/// What `backspace` does to the buffer: at column 0 nothing; otherwise the
/// character before the cursor leaves row `at.y`.
pub open spec fn backspace_contents(c0: Seq<Seq<char>>, at: Position) -> Seq<Seq<char>> {
    if at.x == 0 {
        c0
    } else {
        c0.update(at.y as int, c0[at.y as int].remove(at.x - 1))
    }
}

/// The position `backspace` answers: one column left, unless it was a no-op.
pub open spec fn backspace_pos(at: Position) -> Position {
    if at.x == 0 {
        at
    } else {
        Position { x: (at.x - 1) as usize, y: at.y }
    }
}

/// The text buffer: one row per line, in line order, plus the name of the
/// file it came from, when it came from one.
pub struct Document {
    pub rows: Vec<Row>,
    pub filename: Option<String>,
}

impl Default for Document {
    /// An empty, path-less document.
    fn default() -> (d: Document)
        ensures
            d.contents() == Seq::<Seq<char>>::empty(),
            d.filename is None,
    {
        let d = Document { rows: Vec::new(), filename: None };
        proof {
            assert(d.contents() =~= Seq::<Seq<char>>::empty());
        }
        d
    }
}

impl Document {
    /// The lines of the buffer, as sequences of characters.
    pub open spec fn contents(&self) -> Seq<Seq<char>> {
        self.rows@.map_values(|r: Row| r@)
    }

    /// No row of a document ever contains a newline.
    pub open spec fn wf(&self) -> bool {
        forall|i: int, j: int|
            0 <= i < self.contents().len() && 0 <= j < self.contents()[i].len()
                ==> self.contents()[i][j] != '\n'
    }

    /// Builds the document an opened file yields: one row per line of
    /// `text`, split as `lines_of` describes, under the given name.
    /// Reading the file itself happens outside this crate.
    pub fn from_text(text: &Vec<char>, filename: Option<String>) -> (d: Document)
        ensures
            d.contents() == lines_of(text@),
            d.filename == filename,
            d.wf(),
    {
        let n = text.len();
        let mut rows: Vec<Row> = Vec::new();
        let mut pos: usize = 0;
        proof {
            assert(rows@.map_values(|r: Row| r@) =~= Seq::<Seq<char>>::empty());
            assert(text@.skip(0) =~= text@);
        }
        while pos < n
            invariant
                pos <= n,
                n == text@.len(),
                lines_of(text@) == rows@.map_values(|r: Row| r@) + lines_of(text@.skip(pos as int)),
            decreases n - pos,
        {
            let ghost tail = text@.skip(pos as int);
            // scan to the end of the current line
            let mut k: usize = pos;
            while k < n && text[k] != '\n'
                invariant
                    pos <= k <= n,
                    n == text@.len(),
                    forall|i: int| pos <= i < k ==> text@[i] != '\n',
                decreases n - k,
            {
                k = k + 1;
            }
            proof {
                assert forall|i: int| 0 <= i < k - pos implies tail[i] != '\n' by {
                    assert(tail[i] == text@[pos + i]);
                }
                if k < n {
                    assert(tail[k - pos] == text@[k as int]);
                }
                lemma_first_nl_is(tail, k - pos);
            }
            let ghost rows0 = rows@;
            if k == n {
                // final line, no terminating newline: kept whole
                let line = copy_range(text, pos, n);
                proof {
                    assert(tail =~= text@.subrange(pos as int, n as int));
                    assert(lines_of(tail) == seq![tail]);
                }
                rows.push(Row::from_vec(line));
                pos = n;
                proof {
                    assert(rows@.map_values(|r: Row| r@) =~= rows0.map_values(|r: Row| r@).push(
                        tail,
                    ));
                    assert(rows0.map_values(|r: Row| r@) + seq![tail] =~= rows@.map_values(
                        |r: Row| r@,
                    ));
                    assert(text@.skip(n as int) =~= Seq::<char>::empty());
                    assert(lines_of(text@) =~= rows@.map_values(|r: Row| r@) + lines_of(
                        text@.skip(n as int),
                    ));
                }
            } else {
                // line terminated by a newline: drop one carriage return
                let end = if k > pos && text[k - 1] == '\r' {
                    k - 1
                } else {
                    k
                };
                let line = copy_range(text, pos, end);
                proof {
                    let head = tail.subrange(0, k - pos);
                    assert(head =~= text@.subrange(pos as int, k as int));
                    assert(strip_cr(head) =~= text@.subrange(pos as int, end as int));
                    assert(lines_of(tail) == seq![strip_cr(head)] + lines_of(
                        tail.skip(k - pos + 1),
                    ));
                    assert(tail.skip(k - pos + 1) =~= text@.skip((k + 1) as int));
                }
                rows.push(Row::from_vec(line));
                proof {
                    let head = tail.subrange(0, k - pos);
                    assert(rows@.map_values(|r: Row| r@) =~= rows0.map_values(|r: Row| r@).push(
                        strip_cr(head),
                    ));
                    assert(rows0.map_values(|r: Row| r@) + (seq![strip_cr(head)] + lines_of(
                        tail.skip(k - pos + 1),
                    )) =~= rows@.map_values(|r: Row| r@) + lines_of(tail.skip(k - pos + 1)));
                    assert(lines_of(text@) =~= rows@.map_values(|r: Row| r@) + lines_of(
                        text@.skip((k + 1) as int),
                    ));
                }
                pos = k + 1;
            }
        }
        proof {
            assert(text@.skip(n as int) =~= Seq::<char>::empty());
            assert(lines_of(text@) =~= rows@.map_values(|r: Row| r@));
        }
        let d = Document { rows, filename };
        proof {
            lemma_lines_of_wf(text@);
        }
        d
    }

    /// Bounds-checked read access to one row.
    pub fn row(&self, index: usize) -> (r: Option<&Row>)
        ensures
            index < self.contents().len() ==> r is Some && r->0@ == self.contents()[index as int],
            index >= self.contents().len() ==> r is None,
    {
        if index < self.rows.len() {
            Some(&self.rows[index])
        } else {
            None
        }
    }

    /// Whether the buffer has no rows at all.
    pub fn is_empty(&self) -> (r: bool)
        ensures
            r == (self.contents().len() == 0),
    {
        self.rows.is_empty()
    }

    /// Number of rows in the buffer.
    pub fn lines(&self) -> (r: usize)
        ensures
            r == self.contents().len(),
    {
        self.rows.len()
    }

    /// Computes the insertion point for the classic modal entry commands
    /// and performs the structural row insertion the `o`/`O` commands ask
    /// for. Any unrecognized command char behaves like plain insert.
    pub fn begin_insert(&mut self, at: &Position, mode: char) -> (r: Position)
        requires
            at.y < old(self).contents().len(),
            mode == 'a' ==> at.x < usize::MAX,
        ensures
            final(self).filename == old(self).filename,
            final(self).contents() == begin_insert_contents(old(self).contents(), *at, mode),
            r == begin_insert_pos(old(self).contents(), *at, mode),
    {
        proof {
            assert(self.rows.len() == self.rows@.len());
        }
        let mut new_at = Position { x: at.x, y: at.y };
        let mut insert_line = false;
        match mode {
            'i' => (),
            'I' => {
                new_at.x = self.rows[at.y].head();
            },
            'o' => {
                insert_line = true;
                new_at.x = 0;
                new_at.y = new_at.y + 1;
            },
            'O' => {
                insert_line = true;
                new_at.x = 0;
            },
            'a' => {
                new_at.x = at.x + 1;
            },
            'A' => {
                new_at.x = self.rows[at.y].len();
            },
            _ => (),
        }
        if insert_line {
            let row = Row::default();
            self.rows.insert(new_at.y, row);
            proof {
                assert(self.contents() =~= old(self).contents().insert(
                    new_at.y as int,
                    Seq::<char>::empty(),
                ));
            }
        }
        new_at
    }

    /// Inserts one character at `at`. A newline splits the row there,
    /// putting the tail on a new row just below and answering the start of
    /// that row; any other character lands in the row, and the position
    /// one column right is answered.
    pub fn insert(&mut self, c: char, at: &Position) -> (r: Position)
        requires
            at.y < old(self).contents().len(),
            c != '\n' ==> at.x <= old(self).contents()[at.y as int].len() < usize::MAX,
        ensures
            final(self).filename == old(self).filename,
            final(self).contents() == insert_contents(old(self).contents(), *at, c),
            r == insert_pos(*at, c),
    {
        proof {
            assert(old(self).rows.len() == old(self).rows@.len());
        }
        let mut row = self.rows.remove(at.y);
        if c == '\n' {
            let new_row = row.split(at.x);
            self.rows.insert(at.y, row);
            self.rows.insert(at.y + 1, new_row);
            proof {
                let c0 = old(self).contents();
                let row0 = c0[at.y as int];
                assert(self.contents() =~= c0.update(at.y as int, split_left(row0, at.x as int))
                    .insert(at.y + 1, split_right(row0, at.x as int)));
            }
            Position { x: 0, y: at.y + 1 }
        } else {
            row.insert(at.x, c);
            self.rows.insert(at.y, row);
            proof {
                let c0 = old(self).contents();
                let row0 = c0[at.y as int];
                assert(self.contents() =~= c0.update(at.y as int, row0.insert(at.x as int, c)));
            }
            Position { x: at.x + 1, y: at.y }
        }
    }

    /// Deletes the character just before `at` on the same row and answers
    /// the position one column left. At column 0 nothing happens and `at`
    /// is answered unchanged: a backspace never merges a row into its
    /// predecessor. That no-op is a deliberate, known limitation of this
    /// buffer, not an oversight of the contract.
    pub fn backspace(&mut self, at: &Position) -> (r: Position)
        requires
            at.x > 0 ==> at.y < old(self).contents().len() && at.x - 1 < old(self).contents()[at.y as int].len(),
        ensures
            final(self).filename == old(self).filename,
            final(self).contents() == backspace_contents(old(self).contents(), *at),
            r == backspace_pos(*at),
    {
        if at.x == 0 {
            Position { x: at.x, y: at.y }
        } else {
            let mut row = self.rows.remove(at.y);
            row.delete(at.x - 1);
            self.rows.insert(at.y, row);
            proof {
                let c0 = old(self).contents();
                assert(self.contents() =~= c0.update(at.y as int, c0[at.y as int].remove(at.x - 1)));
            }
            Position { x: at.x - 1, y: at.y }
        }
    }
}

/// Copies `text[from..to]` into a fresh vector.
fn copy_range(text: &Vec<char>, from: usize, to: usize) -> (r: Vec<char>)
    requires
        from <= to <= text@.len(),
    ensures
        r@ == text@.subrange(from as int, to as int),
{
    let mut out: Vec<char> = Vec::new();
    let mut i = from;
    while i < to
        invariant
            from <= i <= to <= text@.len(),
            out@ == text@.subrange(from as int, i as int),
        decreases to - i,
    {
        out.push(text[i]);
        proof {
            assert(out@ =~= text@.subrange(from as int, i + 1 as int));
        }
        i = i + 1;
    }
    out
}

} // verus!
