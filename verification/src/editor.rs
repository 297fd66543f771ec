//! Cursor/viewport coordinate model and the modal key-dispatch state
//! machine that drives the document.

use vstd::prelude::*;

use crate::document::{
    backspace_contents, backspace_pos, begin_insert_contents, begin_insert_pos, insert_contents,
    insert_pos, Document,
};
use crate::row::Row;

verus! {

/// A zero-based (column, row) coordinate in document space.
#[derive(Clone, Copy, PartialEq, Eq, Structural, Debug)]
pub struct Position {
    pub x: usize,
    pub y: usize,
}

impl Default for Position {
    /// The origin.
    fn default() -> (r: Position)
        ensures
            r.x == 0 && r.y == 0,
    {
        Position { x: 0, y: 0 }
    }
}

/// The visible character grid the terminal exposes, in columns and rows.
#[derive(Clone, Copy, PartialEq, Eq, Structural, Debug)]
pub struct Size {
    pub width: u16,
    pub height: u16,
}

/// The active interpretation context for key events.
#[derive(Clone, Copy, PartialEq, Eq, Structural, Debug)]
pub enum Mode {
    Command,
    Search,
    Visual,
    Normal,
    Insert,
}

/// A decoded key event, as the dispatcher understands it. The terminal
/// shim translates whatever its input library reports into this.
#[derive(Clone, Copy, PartialEq, Eq, Structural, Debug)]
pub enum Key {
    Char(char),
    Ctrl(char),
    Backspace,
    Esc,
    Left,
    Right,
    Up,
    Down,
    PageUp,
    PageDown,
    Other,
}

/// `v - 1`, floored at 0.
pub open spec fn sat_sub1(v: int) -> int {
    if v > 0 {
        v - 1
    } else {
        0
    }
}

/// `v + 1`, capped at the machine limit.
pub open spec fn sat_add1(v: int) -> int {
    if v < usize::MAX {
        v + 1
    } else {
        usize::MAX as int
    }
}

/// Insert mode allows the cursor one column/row past the last content
/// position, to stand for the append/new-line caret.
pub open spec fn mode_extra(mode: Mode) -> int {
    if mode is Insert {
        1
    } else {
        0
    }
}

/// `count + extra`, saturating at the machine limit.
pub open spec fn sat_limit(count: int, extra: int) -> int {
    if count + extra > usize::MAX {
        usize::MAX as int
    } else {
        count + extra
    }
}

/// Clamp of a non-negative coordinate to `[0, limit - 1]` (0 when the
/// limit itself is 0).
pub open spec fn clamp_to(v: int, limit: int) -> int {
    if v >= limit {
        if limit > 0 {
            limit - 1
        } else {
            0
        }
    } else {
        v
    }
}

/// The scroll offset that keeps coordinate `v` visible in a window of the
/// given extent: how far past the window's last cell `v` reaches.
pub open spec fn scroll_offset(v: int, window: int) -> int {
    if v >= window {
        v - window + 1
    } else {
        0
    }
}

/// The row length the column clamp sees at row `y`: the row's length when
/// the row exists, 0 otherwise.
pub open spec fn row_len_at(c: Seq<Seq<char>>, y: int) -> int {
    if 0 <= y < c.len() {
        c[y].len() as int
    } else {
        0
    }
}

/// The cursor position that seeking `target` over contents `c` yields:
/// the row clamped to the buffer, then the column clamped to that row.
pub open spec fn seek_cursor(c: Seq<Seq<char>>, mode: Mode, target: Position) -> Position {
    let y = clamp_to(target.y as int, sat_limit(c.len() as int, mode_extra(mode)));
    let x = clamp_to(target.x as int, sat_limit(row_len_at(c, y), mode_extra(mode)));
    Position { x: x as usize, y: y as usize }
}

/// The viewport offset that seeking `target` yields: derived from the
/// clamped cursor and the viewport size alone.
pub open spec fn seek_offset(c: Seq<Seq<char>>, mode: Mode, size: Size, target: Position) -> Position {
    let p = seek_cursor(c, mode, target);
    Position {
        x: scroll_offset(p.x as int, size.width as int) as usize,
        y: scroll_offset(p.y as int, size.height as int) as usize,
    }
}

/// The single choke point for cursor movement: clamps `target` to the
/// buffer (with the insert-mode extra cell) and recomputes the viewport
/// offset, so the cursor can never point past document bounds.
pub fn move_cursor(doc: &Document, mode: Mode, size: Size, target: Position) -> (r: (
    Position,
    Position,
))
    ensures
        r.0 == seek_cursor(doc.contents(), mode, target),
        r.1 == seek_offset(doc.contents(), mode, size, target),
{
    let extra: usize = match mode {
        Mode::Insert => 1,
        _ => 0,
    };
    let lines = doc.lines();
    let vw = size.width as usize;
    let vh = size.height as usize;

    let limit_y = if lines < usize::MAX {
        lines + extra
    } else {
        usize::MAX
    };
    let mut y = target.y;
    if y >= limit_y {
        y = if limit_y > 0 {
            limit_y - 1
        } else {
            0
        };
    }
    let off_y = if y >= vh {
        y - vh + 1
    } else {
        0
    };

    let row_len = match doc.row(y) {
        Some(row) => row.len(),
        None => 0,
    };
    let limit_x = if row_len < usize::MAX {
        row_len + extra
    } else {
        usize::MAX
    };
    let mut x = target.x;
    if x >= limit_x {
        x = if limit_x > 0 {
            limit_x - 1
        } else {
            0
        };
    }
    let off_x = if x >= vw {
        x - vw + 1
    } else {
        0
    };

    (Position { x, y }, Position { x: off_x, y: off_y })
}

/// The dispatcher: one document, one cursor, one viewport offset, the
/// active mode, the feedback/prompt line, the pending-g flag for the
/// two-key `gg` sequence, and the stack of positions saved on entering
/// command mode.
pub struct Editor {
    pub should_quit: bool,
    pub size: Size,
    pub cursor_position: Position,
    pub offset: Position,
    pub doc: Document,
    pub prompt_line: Vec<char>,
    pub mode: Mode,
    pub g_cmd_start: bool,
    pub prev_cursor_positions: Vec<Position>,
}

/// A cursor the normal-mode handlers may hand to the document: it names
/// an existing row and has room to advance one column.
pub open spec fn cursor_ok(p: Position, lines: int) -> bool {
    p.y < lines && p.x < usize::MAX
}

/// The feedback line shown while insert mode is active.
pub open spec fn insert_banner() -> Seq<char> {
    seq!['-', '-', ' ', 'I', 'N', 'S', 'E', 'R', 'T', ' ', '-', '-']
}

/// The only recognized command: the literal quit command.
pub open spec fn is_quit_command(p: Seq<char>) -> bool {
    p == seq![':', 'q']
}

/// The modal entry commands that switch from normal to insert mode.
pub open spec fn is_insert_entry(c: char) -> bool {
    c == 'i' || c == 'I' || c == 'a' || c == 'A' || c == 'o' || c == 'O' || c == 'r' || c == 'R'
}

/// The position restored when command mode is left: the most recently
/// saved one, or the origin when none was saved.
pub open spec fn stack_top(s: Seq<Position>) -> Position {
    if s.len() > 0 {
        s.last()
    } else {
        Position { x: 0, y: 0 }
    }
}

/// The saved-position stack after command mode is left.
pub open spec fn stack_rest(s: Seq<Position>) -> Seq<Position> {
    if s.len() > 0 {
        s.drop_last()
    } else {
        s
    }
}

impl Editor {
    /// The dispatcher's steady-state invariant: the buffer is never
    /// empty, in normal mode the cursor names an existing row, and every
    /// saved position does too.
    pub open spec fn wf(&self) -> bool {
        &&& self.doc.contents().len() >= 1
        &&& (self.mode is Normal ==> cursor_ok(
            self.cursor_position,
            self.doc.contents().len() as int,
        ))
        &&& (forall|i: int|
            0 <= i < self.prev_cursor_positions@.len() ==> cursor_ok(
                #[trigger] self.prev_cursor_positions@[i],
                self.doc.contents().len() as int,
            ))
    }

    /// A fresh editor over `doc`: normal mode, cursor at the origin. An
    /// empty document is given one blank row, so that every later edit
    /// finds a row to work on.
    pub fn new(doc: Document, size: Size) -> (e: Editor)
        ensures
            e.wf(),
            e.doc.filename == doc.filename,
            doc.contents().len() > 0 ==> e.doc.contents() == doc.contents(),
            doc.contents().len() == 0 ==> e.doc.contents() == seq![Seq::<char>::empty()],
            e.size == size,
            !e.should_quit,
            e.cursor_position == (Position { x: 0usize, y: 0usize }),
            e.offset == (Position { x: 0usize, y: 0usize }),
            e.prompt_line@ == Seq::<char>::empty(),
            e.mode is Normal,
            !e.g_cmd_start,
            e.prev_cursor_positions@ == Seq::<Position>::empty(),
    {
        let mut doc = doc;
        if doc.is_empty() {
            doc.rows.push(Row::default());
            proof {
                assert(doc.contents() =~= seq![Seq::<char>::empty()]);
            }
        }
        Editor {
            should_quit: false,
            size,
            cursor_position: Position { x: 0, y: 0 },
            offset: Position { x: 0, y: 0 },
            doc,
            prompt_line: Vec::new(),
            mode: Mode::Normal,
            g_cmd_start: false,
            prev_cursor_positions: Vec::new(),
        }
    }

    /// Moves the cursor and viewport offset to follow `pos`, clamped as
    /// the coordinate model prescribes; nothing else changes.
    pub fn move_cursor(&mut self, pos: &Position)
        ensures
            *final(self) == (Editor {
                cursor_position: seek_cursor(old(self).doc.contents(), old(self).mode, *pos),
                offset: seek_offset(
                    old(self).doc.contents(),
                    old(self).mode,
                    old(self).size,
                    *pos,
                ),
                ..*old(self)
            }),
    {
        let (c, o) = move_cursor(&self.doc, self.mode, self.size, *pos);
        self.cursor_position = c;
        self.offset = o;
    }

    /// Enters insert mode on command char `c`: shows the insert banner,
    /// lets the document compute (and, for `o`/`O`, prepare) the insertion
    /// point, and seeks the cursor there.
    pub fn switch_to_insert_mode(&mut self, c: char)
        requires
            old(self).wf(),
            old(self).mode is Normal,
        ensures
            final(self).wf(),
            stepped(
                *old(self),
                *final(self),
                begin_insert_contents(old(self).doc.contents(), old(self).cursor_position, c),
                Mode::Insert,
                insert_banner(),
                begin_insert_pos(old(self).doc.contents(), old(self).cursor_position, c),
                false,
            ),
    {
        self.g_cmd_start = false;
        self.mode = Mode::Insert;
        self.prompt_line = vec!['-', '-', ' ', 'I', 'N', 'S', 'E', 'R', 'T', ' ', '-', '-'];
        proof {
            assert(self.prompt_line@ =~= insert_banner());
        }
        let new_pos = self.doc.begin_insert(&self.cursor_position, c);
        self.move_cursor(&new_pos);
    }

    /// Dispatches one key in normal mode.
    pub fn in_normal_mode(&mut self, pressed_key: Key)
        requires
            old(self).wf(),
            old(self).mode is Normal,
        ensures
            final(self).wf(),
            normal_step(*old(self), pressed_key, *final(self)),
    {
        let pending = self.g_cmd_start;
        self.g_cmd_start = false;
        let x = self.cursor_position.x;
        let y = self.cursor_position.y;
        match pressed_key {
            Key::Char('i') | Key::Char('I') | Key::Char('a') | Key::Char('A') | Key::Char('o')
                | Key::Char('O') | Key::Char('r') | Key::Char('R') => {
                let c = match pressed_key {
                    Key::Char(c) => c,
                    _ => 'i',
                };
                self.switch_to_insert_mode(c);
            },
            Key::Char(':') => {
                self.prompt_line = vec![':'];
                proof {
                    assert(self.prompt_line@ =~= seq![':']);
                }
                self.prev_cursor_positions.push(self.cursor_position);
                self.cursor_position = Position { x: 1, y: self.size.height as usize + 2 };
                self.mode = Mode::Command;
            },
            Key::Char('?') | Key::Char('/') => {
                self.mode = Mode::Search;
            },
            Key::Ctrl('v') | Key::Char('v') => {
                self.mode = Mode::Visual;
            },
            Key::Char('$') => {
                let row_len = match self.doc.row(y) {
                    Some(row) => row.len(),
                    None => 0,
                };
                let new_pos = Position {
                    x: if row_len > 0 {
                        row_len - 1
                    } else {
                        0
                    },
                    y,
                };
                self.move_cursor(&new_pos);
            },
            Key::Char('0') => {
                let new_pos = Position { x: 0, y };
                self.move_cursor(&new_pos);
            },
            Key::Char('G') => {
                let new_pos = Position { x, y: self.doc.lines() - 1 };
                self.move_cursor(&new_pos);
            },
            Key::Char('g') => {
                if pending {
                    let new_pos = Position { x, y: 0 };
                    self.move_cursor(&new_pos);
                } else {
                    self.g_cmd_start = true;
                }
            },
            Key::Char('h') => {
                let new_pos = Position {
                    x: if x > 0 {
                        x - 1
                    } else {
                        0
                    },
                    y,
                };
                self.move_cursor(&new_pos);
            },
            Key::Char('l') => {
                let new_pos = Position {
                    x: if x < usize::MAX {
                        x + 1
                    } else {
                        usize::MAX
                    },
                    y,
                };
                self.move_cursor(&new_pos);
            },
            Key::Char('j') => {
                let new_pos = Position {
                    x,
                    y: if y < usize::MAX {
                        y + 1
                    } else {
                        usize::MAX
                    },
                };
                self.move_cursor(&new_pos);
            },
            Key::Char('k') => {
                let new_pos = Position {
                    x,
                    y: if y > 0 {
                        y - 1
                    } else {
                        0
                    },
                };
                self.move_cursor(&new_pos);
            },
            _ => (),
        }
    }

    /// Dispatches one key in insert mode. Answers false exactly when the
    /// key asked for an edit outside the buffer — a broken invariant the
    /// caller must treat as fatal; the state is then left unchanged.
    pub fn in_insert_mode(&mut self, pressed_key: Key) -> (ok: bool)
        requires
            old(self).wf(),
            old(self).mode is Insert,
        ensures
            final(self).wf(),
            insert_step(*old(self), pressed_key, *final(self), ok),
    {
        match pressed_key {
            Key::Char(c) => {
                if self.offset.x > usize::MAX - self.cursor_position.x {
                    return false;
                }
                let ax = self.cursor_position.x + self.offset.x;
                if self.offset.y > usize::MAX - self.cursor_position.y {
                    return false;
                }
                let ay = self.cursor_position.y + self.offset.y;
                if ay >= self.doc.lines() {
                    return false;
                }
                if c != '\n' {
                    let row_len = match self.doc.row(ay) {
                        Some(row) => row.len(),
                        None => 0,
                    };
                    if !(ax <= row_len && row_len < usize::MAX) {
                        return false;
                    }
                }
                let at = Position { x: ax, y: ay };
                let new_pos = self.doc.insert(c, &at);
                self.move_cursor(&new_pos);
                true
            },
            Key::Backspace => {
                let at = self.cursor_position;
                if at.x > 0 {
                    if at.y >= self.doc.lines() {
                        return false;
                    }
                    let row_len = match self.doc.row(at.y) {
                        Some(row) => row.len(),
                        None => 0,
                    };
                    if at.x - 1 >= row_len {
                        return false;
                    }
                }
                let new_pos = self.doc.backspace(&at);
                self.cursor_position = new_pos;
                true
            },
            Key::Esc => {
                self.prompt_line = Vec::new();
                self.mode = Mode::Normal;
                let target = Position {
                    x: if self.cursor_position.x > 0 {
                        self.cursor_position.x - 1
                    } else {
                        0
                    },
                    y: self.cursor_position.y,
                };
                self.move_cursor(&target);
                true
            },
            _ => true,
        }
    }

    /// Dispatches one key in command mode.
    pub fn in_command_mode(&mut self, pressed_key: Key)
        requires
            old(self).wf(),
            old(self).mode is Command,
        ensures
            final(self).wf(),
            command_step(*old(self), pressed_key, *final(self)),
    {
        match pressed_key {
            Key::Char('\n') => {
                if check_quit(&self.prompt_line) {
                    self.should_quit = true;
                }
                self.prompt_line = Vec::new();
                self.mode = Mode::Normal;
                self.cursor_position = match self.prev_cursor_positions.pop() {
                    Some(p) => p,
                    None => Position { x: 0, y: 0 },
                };
                proof {
                    let s0 = old(self).prev_cursor_positions@;
                    if s0.len() > 0 {
                        assert(self.prev_cursor_positions@ =~= stack_rest(s0));
                        assert(cursor_ok(s0[s0.len() - 1], self.doc.contents().len() as int));
                    }
                }
            },
            Key::Backspace => {
                let _dropped = self.prompt_line.pop();
                let nx = if self.cursor_position.x > 0 {
                    self.cursor_position.x - 1
                } else {
                    0
                };
                self.cursor_position = Position { x: nx, y: self.cursor_position.y };
            },
            Key::Char(c) => {
                self.prompt_line.push(c);
                let nx = if self.cursor_position.x < usize::MAX {
                    self.cursor_position.x + 1
                } else {
                    usize::MAX
                };
                self.cursor_position = Position { x: nx, y: self.cursor_position.y };
            },
            _ => (),
        }
    }

    /// Search mode is a reachable stub: every key leaves the state as it
    /// was.
    pub fn in_search_mode(&self, _pressed_key: Key) {
    }

    /// Visual mode is a reachable stub: every key leaves the state as it
    /// was.
    pub fn in_visual_mode(&self, _pressed_key: Key) {
    }

    /// Classifies one key event by the active mode and dispatches it.
    /// Answers false exactly when insert mode hit a broken invariant,
    /// which the caller must treat as fatal.
    pub fn process_keypress(&mut self, pressed_key: Key) -> (ok: bool)
        requires
            old(self).wf(),
        ensures
            final(self).wf(),
            old(self).mode is Normal ==> ok && normal_step(*old(self), pressed_key, *final(self)),
            old(self).mode is Insert ==> insert_step(*old(self), pressed_key, *final(self), ok),
            old(self).mode is Command ==> ok && command_step(
                *old(self),
                pressed_key,
                *final(self),
            ),
            old(self).mode is Search || old(self).mode is Visual ==> ok && *final(self) == *old(
                self,
            ),
    {
        match self.mode {
            Mode::Normal => {
                self.in_normal_mode(pressed_key);
                true
            },
            Mode::Insert => self.in_insert_mode(pressed_key),
            Mode::Command => {
                self.in_command_mode(pressed_key);
                true
            },
            Mode::Search => {
                self.in_search_mode(pressed_key);
                true
            },
            Mode::Visual => {
                self.in_visual_mode(pressed_key);
                true
            },
        }
    }
}

/// Whether the prompt holds exactly the quit command.
fn check_quit(p: &Vec<char>) -> (r: bool)
    ensures
        r == is_quit_command(p@),
{
    if p.len() == 2 && p[0] == ':' && p[1] == 'q' {
        proof {
            assert(p@ =~= seq![':', 'q']);
        }
        true
    } else {
        proof {
            assert(p@ != seq![':', 'q']) by {
                let q = seq![':', 'q'];
                assert(q.len() == 2 && q[0] == ':' && q[1] == 'q');
            }
        }
        false
    }
}

/// Whether the absolute insert position (cursor plus viewport offset) can
/// be formed and names an existing row.
pub open spec fn insert_target_ok(pre: Editor) -> bool {
    &&& pre.cursor_position.x + pre.offset.x <= usize::MAX
    &&& pre.cursor_position.y + pre.offset.y <= usize::MAX
    &&& pre.cursor_position.y + pre.offset.y < pre.doc.contents().len()
}

/// The absolute position insert mode hands to the document: cursor plus
/// viewport offset, an asymmetry inherited from the dispatch design.
pub open spec fn insert_abs_pos(pre: Editor) -> Position {
    Position {
        x: (pre.cursor_position.x + pre.offset.x) as usize,
        y: (pre.cursor_position.y + pre.offset.y) as usize,
    }
}

/// Whether inserting `c` at the absolute insert position is in bounds; out
/// of bounds means the dispatcher and document have desynchronized, which
/// is fatal.
pub open spec fn insert_char_ok(pre: Editor, c: char) -> bool {
    &&& insert_target_ok(pre)
    &&& (c != '\n' ==> insert_abs_pos(pre).x <= row_len_at(
        pre.doc.contents(),
        insert_abs_pos(pre).y as int,
    ) < usize::MAX)
}

/// Whether a backspace at the cursor is in bounds (at column 0 it is a
/// no-op and always in bounds).
pub open spec fn backspace_ok(pre: Editor) -> bool {
    let at = pre.cursor_position;
    at.x > 0 ==> at.y < pre.doc.contents().len() && at.x - 1 < pre.doc.contents()[at.y as int].len()
}

/// The insert-mode transition relation. `ok` is false exactly when the
/// key asked for an edit at a position outside the buffer — a broken
/// invariant the caller must treat as fatal; the state is then unchanged.
pub open spec fn insert_step(pre: Editor, key: Key, post: Editor, ok: bool) -> bool {
    match key {
        Key::Char(c) => if insert_char_ok(pre, c) {
            let at = insert_abs_pos(pre);
            &&& ok
            &&& stepped(
                pre,
                post,
                insert_contents(pre.doc.contents(), at, c),
                pre.mode,
                pre.prompt_line@,
                insert_pos(at, c),
                pre.g_cmd_start,
            )
        } else {
            !ok && post == pre
        },
        Key::Backspace => if backspace_ok(pre) {
            &&& ok
            &&& post == (Editor {
                doc: post.doc,
                cursor_position: backspace_pos(pre.cursor_position),
                ..pre
            })
            &&& post.doc.contents() == backspace_contents(pre.doc.contents(), pre.cursor_position)
            &&& post.doc.filename == pre.doc.filename
        } else {
            !ok && post == pre
        },
        Key::Esc => {
            &&& ok
            &&& stepped(
                pre,
                post,
                pre.doc.contents(),
                Mode::Normal,
                Seq::empty(),
                (Position {
                    x: sat_sub1(pre.cursor_position.x as int) as usize,
                    y: pre.cursor_position.y,
                }),
                pre.g_cmd_start,
            )
        },
        _ => ok && post == pre,
    }
}

/// The command-mode transition relation: Enter runs (at most) the quit
/// command and falls back to normal mode at the most recently saved
/// position; other keys edit the prompt line.
pub open spec fn command_step(pre: Editor, key: Key, post: Editor) -> bool {
    match key {
        Key::Char(c) => if c == '\n' {
            &&& post == (Editor {
                should_quit: pre.should_quit || is_quit_command(pre.prompt_line@),
                prompt_line: post.prompt_line,
                mode: Mode::Normal,
                cursor_position: stack_top(pre.prev_cursor_positions@),
                prev_cursor_positions: post.prev_cursor_positions,
                ..pre
            })
            &&& post.prompt_line@ == Seq::<char>::empty()
            &&& post.prev_cursor_positions@ == stack_rest(pre.prev_cursor_positions@)
        } else {
            &&& post == (Editor {
                prompt_line: post.prompt_line,
                cursor_position: (Position {
                    x: sat_add1(pre.cursor_position.x as int) as usize,
                    y: pre.cursor_position.y,
                }),
                ..pre
            })
            &&& post.prompt_line@ == pre.prompt_line@.push(c)
        },
        Key::Backspace => {
            &&& post == (Editor {
                prompt_line: post.prompt_line,
                cursor_position: (Position {
                    x: sat_sub1(pre.cursor_position.x as int) as usize,
                    y: pre.cursor_position.y,
                }),
                ..pre
            })
            &&& post.prompt_line@ == (if pre.prompt_line@.len() > 0 {
                pre.prompt_line@.drop_last()
            } else {
                pre.prompt_line@
            })
        },
        _ => post == pre,
    }
}

/// `post` is `pre` after one dispatch step that left the buffer holding
/// `c1`, the mode `m`, the prompt `prompt` and the pending-g flag `g`, and
/// sought the cursor to `target` through the coordinate model. The quit
/// flag, viewport size, file name and saved-position stack are untouched.
pub open spec fn stepped(
    pre: Editor,
    post: Editor,
    c1: Seq<Seq<char>>,
    m: Mode,
    prompt: Seq<char>,
    target: Position,
    g: bool,
) -> bool {
    &&& post.doc.contents() == c1
    &&& post.doc.filename == pre.doc.filename
    &&& post.mode == m
    &&& post.prompt_line@ == prompt
    &&& post.cursor_position == seek_cursor(c1, m, target)
    &&& post.offset == seek_offset(c1, m, pre.size, target)
    &&& post.should_quit == pre.should_quit
    &&& post.size == pre.size
    &&& post.g_cmd_start == g
    &&& post.prev_cursor_positions@ == pre.prev_cursor_positions@
}

/// The normal-mode transition relation: what one key does to the whole
/// dispatcher state. Unlisted keys only clear the pending-g flag.
pub open spec fn normal_step(pre: Editor, key: Key, post: Editor) -> bool {
    let cur = pre.cursor_position;
    let c0 = pre.doc.contents();
    let keep_prompt = pre.prompt_line@;
    match key {
        Key::Char(c) => if is_insert_entry(c) {
            stepped(
                pre,
                post,
                begin_insert_contents(c0, cur, c),
                Mode::Insert,
                insert_banner(),
                begin_insert_pos(c0, cur, c),
                false,
            )
        } else if c == ':' {
            &&& post == (Editor {
                prompt_line: post.prompt_line,
                prev_cursor_positions: post.prev_cursor_positions,
                cursor_position: (Position { x: 1, y: (pre.size.height + 2) as usize }),
                mode: Mode::Command,
                g_cmd_start: false,
                ..pre
            })
            &&& post.prompt_line@ == seq![':']
            &&& post.prev_cursor_positions@ == pre.prev_cursor_positions@.push(cur)
        } else if c == '?' || c == '/' {
            post == (Editor { mode: Mode::Search, g_cmd_start: false, ..pre })
        } else if c == 'v' {
            post == (Editor { mode: Mode::Visual, g_cmd_start: false, ..pre })
        } else if c == '$' {
            let rl = row_len_at(c0, cur.y as int);
            stepped(
                pre,
                post,
                c0,
                Mode::Normal,
                keep_prompt,
                (Position { x: sat_sub1(rl) as usize, y: cur.y }),
                false,
            )
        } else if c == '0' {
            stepped(pre, post, c0, Mode::Normal, keep_prompt, (Position { x: 0, y: cur.y }), false)
        } else if c == 'G' {
            stepped(
                pre,
                post,
                c0,
                Mode::Normal,
                keep_prompt,
                (Position { x: cur.x, y: (c0.len() - 1) as usize }),
                false,
            )
        } else if c == 'g' {
            if pre.g_cmd_start {
                stepped(
                    pre,
                    post,
                    c0,
                    Mode::Normal,
                    keep_prompt,
                    (Position { x: cur.x, y: 0 }),
                    false,
                )
            } else {
                post == (Editor { g_cmd_start: true, ..pre })
            }
        } else if c == 'h' {
            stepped(
                pre,
                post,
                c0,
                Mode::Normal,
                keep_prompt,
                (Position { x: sat_sub1(cur.x as int) as usize, y: cur.y }),
                false,
            )
        } else if c == 'l' {
            stepped(
                pre,
                post,
                c0,
                Mode::Normal,
                keep_prompt,
                (Position { x: sat_add1(cur.x as int) as usize, y: cur.y }),
                false,
            )
        } else if c == 'j' {
            stepped(
                pre,
                post,
                c0,
                Mode::Normal,
                keep_prompt,
                (Position { x: cur.x, y: sat_add1(cur.y as int) as usize }),
                false,
            )
        } else if c == 'k' {
            stepped(
                pre,
                post,
                c0,
                Mode::Normal,
                keep_prompt,
                (Position { x: cur.x, y: sat_sub1(cur.y as int) as usize }),
                false,
            )
        } else {
            post == (Editor { g_cmd_start: false, ..pre })
        },
        Key::Ctrl(c) => if c == 'v' {
            post == (Editor { mode: Mode::Visual, g_cmd_start: false, ..pre })
        } else {
            post == (Editor { g_cmd_start: false, ..pre })
        },
        _ => post == (Editor { g_cmd_start: false, ..pre }),
    }
}

} // verus!
