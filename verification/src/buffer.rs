//! The text buffer: one open document as a vector of line strings, with a
//! cursor, an optional selection anchor and a modified flag.
//!
//! Columns and lengths count characters, and every operation keeps the
//! buffer well formed: at least one line, the cursor row inside the line
//! vector and the cursor column no further than the end of its line.

use vstd::prelude::*;

verus! {

/// A text position: `(row, col)`, ordered lexicographically.
#[derive(Clone, Copy, Debug, PartialEq, Eq, PartialOrd, Ord)]
pub struct Position {
    pub row: usize,
    pub col: usize,
}

impl Position {
    /// Create a new position.
    pub fn new(row: usize, col: usize) -> (p: Position)
        ensures
            p.row == row,
            p.col == col,
    {
        Position { row, col }
    }

    /// Convert from a `(row, col)` pair.
    pub fn from_tuple(pos: (usize, usize)) -> (p: Position)
        ensures
            p.row == pos.0,
            p.col == pos.1,
    {
        Position { row: pos.0, col: pos.1 }
    }

    /// Convert to a `(row, col)` pair.
    pub fn to_tuple(&self) -> (t: (usize, usize))
        ensures
            t.0 == self.row,
            t.1 == self.col,
    {
        (self.row, self.col)
    }
}

/// Lexicographic order on `(row, col)` pairs.
pub open spec fn pos_le(a: (usize, usize), b: (usize, usize)) -> bool {
    a.0 < b.0 || (a.0 == b.0 && a.1 <= b.1)
}

/// A run of `n` space characters.
pub open spec fn spaces(n: int) -> Seq<char> {
    Seq::new(n as nat, |i: int| ' ')
}

/// `line`, padded with spaces on the right up to column `col` if it is
/// shorter than that.
pub open spec fn padded(line: Seq<char>, col: int) -> Seq<char> {
    if col > line.len() {
        line + spaces(col - line.len())
    } else {
        line
    }
}

/// The whole document: the lines joined by newline characters.
pub open spec fn doc(lines: Seq<Seq<char>>) -> Seq<char>
    decreases lines.len(),
{
    if lines.len() == 0 {
        Seq::empty()
    } else if lines.len() == 1 {
        lines[0]
    } else {
        lines[0] + seq!['\n'] + doc(lines.drop_first())
    }
}

/// Appending one more line extends the document by a newline and that line
/// (or is just that line for an empty document).
pub proof fn lemma_doc_push(lines: Seq<Seq<char>>, x: Seq<char>)
    ensures
        doc(lines.push(x)) == if lines.len() == 0 {
            x
        } else {
            doc(lines) + seq!['\n'] + x
        },
    decreases lines.len(),
{
    if lines.len() == 0 {
        assert(lines.push(x)[0] == x);
        assert(doc(lines.push(x)) == x);
    } else if lines.len() == 1 {
        assert(lines.push(x).drop_first() =~= seq![x]);
        assert(seq![x].len() == 1);
        assert(doc(seq![x]) == x);
        assert(lines.push(x)[0] == lines[0]);
        assert(doc(lines.push(x)) == lines[0] + seq!['\n'] + x);
        assert(doc(lines) == lines[0]);
    } else {
        lemma_doc_push(lines.drop_first(), x);
        assert(lines.push(x).drop_first() =~= lines.drop_first().push(x));
        assert(lines.push(x)[0] == lines[0]);
        assert(doc(lines.push(x)) == lines[0] + seq!['\n'] + doc(lines.drop_first().push(x)));
        assert(doc(lines.drop_first().push(x)) == doc(lines.drop_first()) + seq!['\n'] + x);
        assert(doc(lines.push(x)) =~= doc(lines) + seq!['\n'] + x);
    }
}

/// The character count of a line vector if every line were followed by a
/// newline: the document length plus one.
pub open spec fn total_chars(lines: Seq<Seq<char>>) -> nat
    decreases lines.len(),
{
    if lines.len() == 0 {
        0
    } else {
        lines[0].len() + 1 + total_chars(lines.drop_first())
    }
}

/// The joined document is one character (the missing final newline)
/// shorter than the per-line weights added up.
pub proof fn lemma_doc_len(lines: Seq<Seq<char>>)
    ensures
        lines.len() == 0 ==> doc(lines).len() == 0,
        lines.len() >= 1 ==> doc(lines).len() + 1 == total_chars(lines),
    decreases lines.len(),
{
    if lines.len() > 1 {
        lemma_doc_len(lines.drop_first());
    } else if lines.len() == 1 {
        assert(total_chars(lines.drop_first()) == 0);
    }
}

/// Per-line weights add up across concatenation.
pub proof fn lemma_total_concat(a: Seq<Seq<char>>, b: Seq<Seq<char>>)
    ensures
        total_chars(a + b) == total_chars(a) + total_chars(b),
    decreases a.len(),
{
    if a.len() == 0 {
        assert(a + b =~= b);
    } else {
        lemma_total_concat(a.drop_first(), b);
        assert((a + b).drop_first() =~= a.drop_first() + b);
        assert((a + b)[0] == a[0]);
    }
}

/// The machine-limit headroom every edit needs: the line count and each
/// line length stay far enough from the pointer-size maximum that one
/// split, one join or one insertion cannot overflow an index.
pub open spec fn has_room(b: Buffer) -> bool {
    &&& b.content@.len() < usize::MAX - 1
    &&& forall|i: int| 0 <= i < b.content@.len() ==> (#[trigger] b.line_at(i)).len() < usize::MAX
        / 2 - 1
}

/// How `insert_char` transforms a buffer.
pub open spec fn insert_char_post(pre: Buffer, post: Buffer, c: char) -> bool {
    &&& (post.content@.len() == pre.content@.len())
    &&& (post.line_at(pre.cursor_pos.0 as int) == padded(
                pre.line_at(pre.cursor_pos.0 as int),
                pre.cursor_pos.1 as int,
            ).insert(pre.cursor_pos.1 as int, c))
    &&& (forall|i: int| 0 <= i < pre.content@.len() && i != pre.cursor_pos.0 as int
                ==> post.line_at(i) == pre.line_at(i))
    &&& (post.cursor_pos.0 == pre.cursor_pos.0)
    &&& (post.cursor_pos.1 == pre.cursor_pos.1 + 1)
    &&& (post.modified)
    &&& (post.same_file(pre))
    &&& (post.same_selection(pre))
    &&& (post.wf())
}

/// How `insert_newline` transforms a buffer.
pub open spec fn insert_newline_post(pre: Buffer, post: Buffer) -> bool {
    &&& (post.content@.len() == pre.content@.len() + 1)
    &&& (forall|i: int| 0 <= i < pre.cursor_pos.0 as int ==> post.line_at(i)
                == pre.line_at(i))
    &&& (forall|i: int| pre.cursor_pos.0 as int + 1 < i < post.content@.len()
                ==> post.line_at(i) == pre.line_at(i - 1))
    &&& (pre.cursor_pos.1 < pre.line_at(pre.cursor_pos.0 as int).len() ==> {
                &&& post.line_at(pre.cursor_pos.0 as int) == pre.line_at(
                    pre.cursor_pos.0 as int,
                ).take(pre.cursor_pos.1 as int)
                &&& post.line_at(pre.cursor_pos.0 as int + 1) == pre.line_at(
                    pre.cursor_pos.0 as int,
                ).skip(pre.cursor_pos.1 as int)
            })
    &&& (pre.cursor_pos.1 >= pre.line_at(pre.cursor_pos.0 as int).len() ==> {
                &&& post.line_at(pre.cursor_pos.0 as int) == pre.line_at(
                    pre.cursor_pos.0 as int,
                )
                &&& post.line_at(pre.cursor_pos.0 as int + 1)
                    == Seq::<char>::empty()
            })
    &&& (post.cursor_pos.0 == pre.cursor_pos.0 + 1)
    &&& (post.cursor_pos.1 == 0)
    &&& (post.modified)
    &&& (post.same_file(pre))
    &&& (post.same_selection(pre))
    &&& (post.wf())
}

/// How `backspace` transforms a buffer.
pub open spec fn backspace_post(pre: Buffer, post: Buffer) -> bool {
    &&& (post.wf())
    &&& (post.same_file(pre))
    &&& (post.same_selection(pre))
    &&& (pre.cursor_pos.1 > 0 ==> {
                &&& post.content@.len() == pre.content@.len()
                &&& post.line_at(pre.cursor_pos.0 as int) == pre.line_at(
                    pre.cursor_pos.0 as int,
                ).remove(pre.cursor_pos.1 as int - 1)
                &&& forall|i: int| 0 <= i < pre.content@.len() && i != pre.cursor_pos.0 as int ==> post.line_at(i) == pre.line_at(i)
                &&& post.cursor_pos.0 == pre.cursor_pos.0
                &&& post.cursor_pos.1 == pre.cursor_pos.1 - 1
                &&& post.modified
            })
    &&& (pre.cursor_pos.1 == 0 && pre.cursor_pos.0 > 0 ==> {
                &&& post.content@.len() == pre.content@.len() - 1
                &&& post.line_at(pre.cursor_pos.0 as int - 1) == pre.line_at(
                    pre.cursor_pos.0 as int - 1,
                ) + pre.line_at(pre.cursor_pos.0 as int)
                &&& forall|i: int| 0 <= i < pre.cursor_pos.0 as int - 1 ==> post.line_at(i) == pre.line_at(i)
                &&& forall|i: int| pre.cursor_pos.0 as int <= i < post.content@.len() ==> post.line_at(i) == pre.line_at(i + 1)
                &&& post.cursor_pos.0 == pre.cursor_pos.0 - 1
                &&& post.cursor_pos.1 == pre.line_at(
                    pre.cursor_pos.0 as int - 1,
                ).len()
                &&& post.modified
            })
    &&& (pre.cursor_pos.1 == 0 && pre.cursor_pos.0 == 0 ==> post == pre)
}

/// How `delete` transforms a buffer.
pub open spec fn delete_post(pre: Buffer, post: Buffer) -> bool {
    &&& (post.wf())
    &&& (post.same_file(pre))
    &&& (post.same_selection(pre))
    &&& (post.cursor_pos == pre.cursor_pos)
    &&& (pre.cursor_pos.1 < pre.line_at(pre.cursor_pos.0 as int).len() ==> {
                &&& post.content@.len() == pre.content@.len()
                &&& post.line_at(pre.cursor_pos.0 as int) == pre.line_at(
                    pre.cursor_pos.0 as int,
                ).remove(pre.cursor_pos.1 as int)
                &&& forall|i: int| 0 <= i < pre.content@.len() && i != pre.cursor_pos.0 as int ==> post.line_at(i) == pre.line_at(i)
                &&& post.modified
            })
    &&& (pre.cursor_pos.1 == pre.line_at(pre.cursor_pos.0 as int).len() && pre.cursor_pos.0 + 1 < pre.content@.len() ==> {
                &&& post.content@.len() == pre.content@.len() - 1
                &&& post.line_at(pre.cursor_pos.0 as int) == pre.line_at(
                    pre.cursor_pos.0 as int,
                ) + pre.line_at(pre.cursor_pos.0 as int + 1)
                &&& forall|i: int| 0 <= i < pre.cursor_pos.0 as int ==> post.line_at(i)
                    == pre.line_at(i)
                &&& forall|i: int| pre.cursor_pos.0 as int + 1 <= i < post.content@.len() ==> post.line_at(i) == pre.line_at(i + 1)
                &&& post.modified
            })
    &&& (pre.cursor_pos.1 == pre.line_at(pre.cursor_pos.0 as int).len() && pre.cursor_pos.0 + 1 == pre.content@.len() ==> post == pre)
}

/// How `move_cursor` transforms a buffer.
pub open spec fn move_cursor_post(pre: Buffer, post: Buffer, direction: CursorMovement) -> bool {
    &&& (post.wf())
    &&& (post.content@ == pre.content@)
    &&& (post.modified == pre.modified)
    &&& (post.same_file(pre))
    &&& (post.visual_mode == pre.visual_mode)
    &&& (({
                let row = pre.cursor_pos.0;
                let col = pre.cursor_pos.1;
                let n = pre.content@.len() as int;
                match direction {
                    CursorMovement::Up => if row > 0 {
                        post.cursor_pos.0 == row - 1 && post.cursor_pos.1
                            == vstd::math::min(col as int, pre.line_at(row as int - 1).len() as int)
                    } else {
                        post.cursor_pos == pre.cursor_pos
                    },
                    CursorMovement::Down => if row as int + 1 < n {
                        post.cursor_pos.0 == row + 1 && post.cursor_pos.1
                            == vstd::math::min(col as int, pre.line_at(row as int + 1).len() as int)
                    } else {
                        post.cursor_pos == pre.cursor_pos
                    },
                    CursorMovement::Left => if col > 0 {
                        post.cursor_pos == (row, (col - 1) as usize)
                    } else if row > 0 {
                        post.cursor_pos.0 == row - 1 && post.cursor_pos.1 == pre.line_at(row as int - 1).len()
                    } else {
                        post.cursor_pos == pre.cursor_pos
                    },
                    CursorMovement::Right => if (col as int) < pre.line_at(
                        row as int,
                    ).len() as int {
                        post.cursor_pos == (row, (col + 1) as usize)
                    } else if row as int + 1 < n {
                        post.cursor_pos == (((row + 1) as usize), 0usize)
                    } else {
                        post.cursor_pos == pre.cursor_pos
                    },
                    CursorMovement::LineStart => post.cursor_pos == (row, 0usize),
                    CursorMovement::LineEnd => post.cursor_pos.0 == row && post.cursor_pos.1 == pre.line_at(row as int).len(),
                    CursorMovement::PageUp => {
                        let dest = if row >= 8 {
                            row as int - 8
                        } else {
                            0
                        };
                        post.cursor_pos.0 == dest && post.cursor_pos.1 == vstd::math::min(
                            col as int,
                            pre.line_at(dest).len() as int,
                        )
                    },
                    CursorMovement::PageDown => {
                        let dest = if row as int + 8 < n {
                            row as int + 8
                        } else {
                            n - 1
                        };
                        post.cursor_pos.0 == dest && post.cursor_pos.1 == vstd::math::min(
                            col as int,
                            pre.line_at(dest).len() as int,
                        )
                    },
                    CursorMovement::BufferStart => post.cursor_pos == (0usize, 0usize),
                    CursorMovement::BufferEnd => post.cursor_pos.0 == n - 1 && post.cursor_pos.1 == pre.line_at(n - 1).len(),
                }
            }))
    &&& (pre.visual_mode && pre.selection_start is None ==> post.selection_start == Some(post.cursor_pos))
    &&& (!(pre.visual_mode && pre.selection_start is None) ==> post.selection_start == pre.selection_start)
}

/// How `delete_selection` transforms a buffer that has a selection.
pub open spec fn delete_selection_post(pre: Buffer, post: Buffer) -> bool {

                let s = pre.norm_start();
                let e = pre.norm_end();
                &&& post.wf()
                &&& post.same_file(pre)
                &&& post.selection_start is None
                &&& !post.visual_mode
                &&& post.modified
                &&& post.cursor_pos == s
                &&& post.content@.len() == pre.content@.len() - (e.0 - s.0)
                &&& post.line_at(s.0 as int) == pre.line_at(s.0 as int).take(
                    s.1 as int,
                ) + pre.line_at(e.0 as int).skip(e.1 as int)
                &&& forall|i: int| 0 <= i < s.0 as int ==> post.line_at(i) == pre.line_at(i)
                &&& forall|i: int| (s.0 as int) < i < post.content@.len() ==> post.line_at(i) == pre.line_at(i + (e.0 - s.0))
                &&& post.lines() == pre.delete_selection_lines()
}

/// How `toggle_visual` transforms a buffer.
pub open spec fn toggle_visual_post(pre: Buffer, post: Buffer) -> bool {
    &&& (post.visual_mode == !pre.visual_mode)
    &&& (post.visual_mode ==> post.selection_start == Some(pre.cursor_pos))
    &&& (!post.visual_mode ==> post.selection_start is None)
    &&& (post.content@ == pre.content@)
    &&& (post.cursor_pos == pre.cursor_pos)
    &&& (post.modified == pre.modified)
    &&& (post.same_file(pre))
}

/// The cursor movements a buffer understands.
pub enum CursorMovement {
    Up,
    Down,
    Left,
    Right,
    LineStart,
    LineEnd,
    PageUp,
    PageDown,
    BufferStart,
    BufferEnd,
}

/// One open document.
#[derive(Debug)]
pub struct Buffer {
    pub content: Vec<String>,
    pub path: Option<String>,
    pub name: String,
    pub modified: bool,
    pub cursor_pos: (usize, usize),
    pub selection_start: Option<(usize, usize)>,
    pub visual_mode: bool,
}

impl Clone for Buffer {
    fn clone(&self) -> (r: Buffer)
        ensures
            r.content@ =~= self.content@,
            r.path == self.path,
            r.name == self.name,
            r.modified == self.modified,
            r.cursor_pos == self.cursor_pos,
            r.selection_start == self.selection_start,
            r.visual_mode == self.visual_mode,
    {
        let mut content: Vec<String> = Vec::new();
        let mut i: usize = 0;
        while i < self.content.len()
            invariant
                i <= self.content@.len(),
                content@ =~= self.content@.subrange(0, i as int),
            decreases self.content@.len() - i,
        {
            content.push(self.content[i].clone());
            i += 1;
        }
        Buffer {
            content,
            path: match &self.path {
                Some(p) => Some(p.clone()),
                None => None,
            },
            name: self.name.clone(),
            modified: self.modified,
            cursor_pos: self.cursor_pos,
            selection_start: self.selection_start,
            visual_mode: self.visual_mode,
        }
    }
}

impl Buffer {
    /// The characters of line `i`.
    pub open spec fn line_at(self, i: int) -> Seq<char> {
        self.content@[i]@
    }

    /// The selection anchor and cursor are inside the document.
    pub open spec fn selection_wf(self) -> bool {
        match self.selection_start {
            Some(p) => p.0 < self.content@.len() && p.1 <= self.line_at(p.0 as int).len(),
            None => true,
        }
    }

    /// Well-formed: at least one line, cursor row in range and cursor
    /// column at or before the end of its line.
    pub open spec fn wf(self) -> bool {
        &&& self.content@.len() >= 1
        &&& self.cursor_pos.0 < self.content@.len()
        &&& self.cursor_pos.1 <= self.line_at(self.cursor_pos.0 as int).len()
    }

    /// An empty, unnamed, unmodified buffer with one empty line.
    pub fn new() -> (b: Buffer)
        ensures
            b.wf(),
            b.content@.len() == 1,
            b.line_at(0).len() == 0,
            b.path is None,
            b.name@ == "untitled"@,
            !b.modified,
            b.cursor_pos == (0usize, 0usize),
            b.selection_start is None,
            !b.visual_mode,
    {
        let mut content: Vec<String> = Vec::new();
        content.push(String::new());
        Buffer {
            content,
            path: None,
            name: String::from_str("untitled"),
            modified: false,
            cursor_pos: (0, 0),
            selection_start: None,
            visual_mode: false,
        }
    }

    /// A buffer over lines already read from a file; an empty file yields a
    /// single empty line.
    pub fn from_lines(content: Vec<String>, name: String, path: Option<String>) -> (b: Buffer)
        ensures
            b.wf(),
            content@.len() == 0 ==> b.content@.len() == 1 && b.line_at(0).len() == 0,
            content@.len() > 0 ==> b.content@ == content@,
            b.name == name,
            b.path == path,
            !b.modified,
            b.cursor_pos == (0usize, 0usize),
            b.selection_start is None,
            !b.visual_mode,
    {
        let mut content = content;
        if content.len() == 0 {
            content.push(String::new());
        }
        Buffer {
            content,
            path,
            name,
            modified: false,
            cursor_pos: (0, 0),
            selection_start: None,
            visual_mode: false,
        }
    }

    /// The lines as mathematical sequences of characters.
    pub open spec fn lines(self) -> Seq<Seq<char>> {
        Seq::new(self.content@.len() as nat, |i: int| self.content@[i]@)
    }

    /// File identity (path and display name) is untouched.
    pub open spec fn same_file(self, other: Buffer) -> bool {
        self.path == other.path && self.name == other.name
    }

    /// Selection state (anchor and visual flag) is untouched.
    pub open spec fn same_selection(self, other: Buffer) -> bool {
        self.selection_start == other.selection_start && self.visual_mode == other.visual_mode
    }

    /// The document as one string, lines joined by newlines.
    pub fn content_as_string(&self) -> (r: String)
        ensures
            r@ == doc(self.lines()),
    {
        let mut r = String::new();
        let mut i: usize = 0;
        while i < self.content.len()
            invariant
                i <= self.content@.len(),
                r@ == doc(self.lines().take(i as int)),
                self.lines().len() == self.content@.len(),
                forall|j: int| 0 <= j < self.content@.len() ==> self.lines()[j]
                    == self.content@[j]@,
        decreases self.content@.len() - i,
        {
            proof {
                lemma_doc_push(self.lines().take(i as int), self.lines()[i as int]);
                assert(self.lines().take(i as int).push(self.lines()[i as int]) =~= self.lines()
                    .take(i as int + 1));
            }
            if i > 0 {
                crate::text::push_char(&mut r, '\n');
            }
            r.append(self.content[i].as_str());
            i += 1;
        }
        proof {
            assert(self.lines().take(self.content@.len() as int) =~= self.lines());
        }
        r
    }

    /// Insert a character at the cursor. If the cursor column lies beyond
    /// the end of its line, the line is first padded with spaces, so the
    /// insertion never indexes out of bounds. Marks the buffer modified and
    /// moves the cursor one column right.
    pub fn insert_char(&mut self, c: char)
        requires
            old(self).content@.len() >= 1,
            old(self).cursor_pos.0 < old(self).content@.len(),
            old(self).cursor_pos.1 < usize::MAX,
            old(self).line_at(old(self).cursor_pos.0 as int).len() < usize::MAX,
        ensures
            insert_char_post(*old(self), *final(self), c),
    {
        let row = self.cursor_pos.0;
        let col = self.cursor_pos.1;
        let len = self.content[row].as_str().unicode_len();
        let new_line: String;
        if col > len {
            let mut s = self.content[row].clone();
            let mut k: usize = len;
            while k < col
                invariant
                    len <= k <= col,
                    s@ == self.content@[row as int]@ + spaces(k - len),
                decreases col - k,
            {
                crate::text::push_char(&mut s, ' ');
                proof {
                    assert(s@ =~= self.content@[row as int]@ + spaces(k + 1 - len));
                }
                k += 1;
            }
            crate::text::push_char(&mut s, c);
            proof {
                assert(s@ =~= padded(self.content@[row as int]@, col as int).insert(
                    col as int,
                    c,
                ));
            }
            new_line = s;
        } else {
            let mut s = self.content[row].as_str().substring_char(0, col).to_owned();
            crate::text::push_char(&mut s, c);
            s.append(self.content[row].as_str().substring_char(col, len));
            proof {
                assert(s@ =~= padded(self.content@[row as int]@, col as int).insert(
                    col as int,
                    c,
                ));
            }
            new_line = s;
        }
        self.content.set(row, new_line);
        self.cursor_pos = (row, col + 1);
        self.modified = true;
    }

    /// Split the current line at the cursor column; the cursor moves to the
    /// start of the new line. A cursor at or beyond the end of its line just
    /// opens an empty line below.
    pub fn insert_newline(&mut self)
        requires
            old(self).content@.len() >= 1,
            old(self).cursor_pos.0 < old(self).content@.len(),
            old(self).content@.len() < usize::MAX,
        ensures
            insert_newline_post(*old(self), *final(self)),
    {
        let row = self.cursor_pos.0;
        let col = self.cursor_pos.1;
        let len = self.content[row].as_str().unicode_len();
        if col < len {
            let head = self.content[row].as_str().substring_char(0, col).to_owned();
            let tail = self.content[row].as_str().substring_char(col, len).to_owned();
            self.content.set(row, head);
            self.content.insert(row + 1, tail);
            proof {
                assert(self.content@[row as int]@ =~= old(self).line_at(row as int).take(
                    col as int,
                ));
                assert(self.content@[row as int + 1]@ =~= old(self).line_at(row as int).skip(
                    col as int,
                ));
            }
        } else {
            self.content.insert(row + 1, String::new());
        }
        self.cursor_pos = (row + 1, 0);
        self.modified = true;
    }

    /// Delete the character before the cursor; at column 0 of a later line,
    /// join the current line onto the end of the previous one and leave the
    /// cursor at the join point. At the very start of the buffer, nothing
    /// changes.
    pub fn backspace(&mut self)
        requires
            old(self).wf(),
            old(self).cursor_pos.0 >= 1 ==> old(self).line_at(
                old(self).cursor_pos.0 as int - 1,
            ).len() + old(self).line_at(old(self).cursor_pos.0 as int).len() <= usize::MAX,
        ensures
            backspace_post(*old(self), *final(self)),

    {
        let row = self.cursor_pos.0;
        let col = self.cursor_pos.1;
        if col > 0 {
            let len = self.content[row].as_str().unicode_len();
            let mut s = self.content[row].as_str().substring_char(0, col - 1).to_owned();
            s.append(self.content[row].as_str().substring_char(col, len));
            proof {
                assert(s@ =~= old(self).line_at(row as int).remove(col as int - 1));
            }
            self.content.set(row, s);
            self.cursor_pos = (row, col - 1);
            self.modified = true;
        } else if row > 0 {
            let current = self.content.remove(row);
            let new_col = self.content[row - 1].as_str().unicode_len();
            let mut joined = self.content[row - 1].clone();
            joined.append(current.as_str());
            self.content.set(row - 1, joined);
            self.cursor_pos = (row - 1, new_col);
            self.modified = true;
        }
    }

    /// Delete the character under the cursor; at the end of a line, join the
    /// next line onto this one. At the very end of the buffer, nothing
    /// changes.
    pub fn delete(&mut self)
        requires
            old(self).wf(),
            old(self).cursor_pos.0 + 1 < old(self).content@.len() ==> old(self).line_at(
                old(self).cursor_pos.0 as int,
            ).len() + old(self).line_at(old(self).cursor_pos.0 as int + 1).len() <= usize::MAX,
        ensures
            delete_post(*old(self), *final(self)),

    {
        let row = self.cursor_pos.0;
        let col = self.cursor_pos.1;
        let len = self.content[row].as_str().unicode_len();
        if col < len {
            let mut s = self.content[row].as_str().substring_char(0, col).to_owned();
            s.append(self.content[row].as_str().substring_char(col + 1, len));
            proof {
                assert(s@ =~= old(self).line_at(row as int).remove(col as int));
            }
            self.content.set(row, s);
            self.modified = true;
        } else if row < self.content.len() - 1 {
            let next = self.content.remove(row + 1);
            let mut joined = self.content[row].clone();
            joined.append(next.as_str());
            self.content.set(row, joined);
            self.modified = true;
        }
    }

    /// Toggle visual (selection) mode; entering anchors the selection at the
    /// cursor, leaving clears it.
    pub fn toggle_visual_mode(&mut self)
        ensures
            toggle_visual_post(*old(self), *final(self)),

    {
        self.visual_mode = !self.visual_mode;
        if self.visual_mode {
            self.selection_start = Some(self.cursor_pos);
        } else {
            self.selection_start = None;
        }
    }

    /// Drop any selection and leave visual mode; everything else is kept.
    pub fn clear_selection(&mut self)
        ensures
            *final(self) == spec_clear_selection(*old(self)),
            final(self).selection_start is None,
            !final(self).visual_mode,
            final(self).content@ == old(self).content@,
            final(self).cursor_pos == old(self).cursor_pos,
            final(self).modified == old(self).modified,
            final(self).same_file(*old(self)),
    {
        self.selection_start = None;
        self.visual_mode = false;
    }

    /// Whether the buffer has unsaved changes.
    pub fn is_dirty(&self) -> (r: bool)
        ensures
            r == self.modified,
    {
        self.modified
    }

    /// The selection anchor and cursor in document order: the earlier
    /// position first.
    pub open spec fn norm_start(self) -> (usize, usize)
        recommends
            self.selection_start is Some,
    {
        let s = self.selection_start->0;
        if pos_le(s, self.cursor_pos) {
            s
        } else {
            self.cursor_pos
        }
    }

    /// The later end of the selection range.
    pub open spec fn norm_end(self) -> (usize, usize)
        recommends
            self.selection_start is Some,
    {
        let s = self.selection_start->0;
        if pos_le(s, self.cursor_pos) {
            self.cursor_pos
        } else {
            s
        }
    }

    /// The current selection as an ordered pair of positions, or `None`
    /// when no selection exists.
    pub fn get_selection_range(&self) -> (r: Option<(Position, Position)>)
        ensures
            r is Some <==> self.selection_start is Some,
            r matches Some(pair) ==> {
                &&& (pair.0.row, pair.0.col) == self.norm_start()
                &&& (pair.1.row, pair.1.col) == self.norm_end()
            },
    {
        match self.selection_start {
            None => None,
            Some(start) => {
                let end = self.cursor_pos;
                let start_pos = Position::from_tuple(start);
                let end_pos = Position::from_tuple(end);
                if start_pos.row < end_pos.row || (start_pos.row == end_pos.row && start_pos.col
                    <= end_pos.col) {
                    Some((start_pos, end_pos))
                } else {
                    Some((end_pos, start_pos))
                }
            },
        }
    }

    /// The block of full middle lines of a multi-line selection, each with
    /// its trailing newline.
    pub open spec fn mid_block(lines: Seq<Seq<char>>, lo: int, hi: int) -> Seq<char>
        decreases hi - lo,
    {
        if lo >= hi {
            Seq::empty()
        } else {
            lines[lo] + seq!['\n'] + Self::mid_block(lines, lo + 1, hi)
        }
    }

    /// The characters of the current selection: one line sliced between the
    /// normalized columns, or tail of the first line, full middle lines and
    /// head of the last line, joined by newlines.
    pub open spec fn sel_text(self) -> Seq<char>
        recommends
            self.selection_start is Some,
    {
        let s = self.norm_start();
        let e = self.norm_end();
        if s.0 == e.0 {
            self.line_at(s.0 as int).subrange(s.1 as int, e.1 as int)
        } else {
            self.line_at(s.0 as int).skip(s.1 as int) + seq!['\n'] + Self::mid_block(
                self.lines(),
                s.0 as int + 1,
                e.0 as int,
            ) + self.line_at(e.0 as int).take(e.1 as int)
        }
    }

    /// The selected text, or `None` when no selection exists.
    pub fn get_selected_text(&self) -> (r: Option<String>)
        requires
            self.wf(),
            self.selection_wf(),
        ensures
            r is Some <==> self.selection_start is Some,
            r matches Some(t) ==> t@ == self.sel_text(),
    {
        let range = self.get_selection_range();
        match range {
            None => None,
            Some((start, end)) => {
                if start.row == end.row {
                    let line = &self.content[start.row];
                    Some(line.as_str().substring_char(start.col, end.col).to_owned())
                } else {
                    let first = &self.content[start.row];
                    let first_len = first.as_str().unicode_len();
                    let mut out = first.as_str().substring_char(start.col, first_len).to_owned();
                    crate::text::push_char(&mut out, '\n');
                    let mut row = start.row + 1;
                    while row < end.row
                        invariant
                            start.row < row <= end.row,
                            end.row < self.content@.len(),
                            out@ == self.line_at(start.row as int).skip(start.col as int)
                                + seq!['\n'] + Self::mid_block(
                                self.lines(),
                                start.row as int + 1,
                                row as int,
                            ),
                        decreases end.row - row,
                    {
                        let line_len = self.content[row].as_str().unicode_len();
                        out.append(self.content[row].as_str().substring_char(0, line_len));
                        crate::text::push_char(&mut out, '\n');
                        proof {
                            Self::lemma_mid_block_push(
                                self.lines(),
                                start.row as int + 1,
                                row as int + 1,
                            );
                            assert(out@ =~= self.line_at(start.row as int).skip(start.col as int)
                                + seq!['\n'] + Self::mid_block(
                                self.lines(),
                                start.row as int + 1,
                                row as int + 1,
                            ));
                        }
                        row += 1;
                    }
                    let last = &self.content[end.row];
                    out.append(last.as_str().substring_char(0, end.col));
                    proof {
                        assert(out@ =~= self.sel_text());
                    }
                    Some(out)
                }
            },
        }
    }

    /// The line vector after removing the current selection: lines before
    /// the range kept, the first and last affected lines merged into one,
    /// lines after the range kept.
    pub open spec fn delete_selection_lines(self) -> Seq<Seq<char>>
        recommends
            self.selection_start is Some,
    {
        let s = self.norm_start();
        let e = self.norm_end();
        self.lines().subrange(0, s.0 as int) + seq![
            self.line_at(s.0 as int).take(s.1 as int) + self.line_at(e.0 as int).skip(e.1 as int),
        ] + self.lines().subrange(e.0 as int + 1, self.lines().len() as int)
    }

    /// Remove the selected text. A single-line selection removes the column
    /// range in place; a multi-line selection splices the affected lines
    /// into one (prefix of the first plus suffix of the last). The cursor
    /// lands on the normalized selection start, the selection is cleared
    /// and the buffer is marked modified. Returns false when no selection
    /// exists.
    pub fn delete_selection(&mut self) -> (r: bool)
        requires
            old(self).wf(),
            old(self).selection_wf(),
            old(self).selection_start is Some ==> old(self).norm_start().1 + old(self).line_at(
                old(self).norm_end().0 as int,
            ).len() <= usize::MAX,
        ensures
            r == (old(self).selection_start is Some),
            old(self).selection_start is None ==> *final(self) == *old(self),
            old(self).selection_start is Some ==> delete_selection_post(
                *old(self),
                *final(self),
            ),

    {
        let range = self.get_selection_range();
        match range {
            None => false,
            Some((start, end)) => {
                if start.row == end.row {
                    let len = self.content[start.row].as_str().unicode_len();
                    let mut s = self.content[start.row].as_str().substring_char(
                        0,
                        start.col,
                    ).to_owned();
                    s.append(self.content[start.row].as_str().substring_char(end.col, len));
                    self.content.set(start.row, s);
                } else {
                    let mut s = self.content[start.row].as_str().substring_char(
                        0,
                        start.col,
                    ).to_owned();
                    let last_len = self.content[end.row].as_str().unicode_len();
                    s.append(self.content[end.row].as_str().substring_char(end.col, last_len));
                    self.content.set(start.row, s);
                    let total = self.content.len();
                    let ghost before = self.content@;
                    let removals = end.row - start.row;
                    let mut k: usize = 0;
                    while k < removals
                        invariant
                            k <= removals,
                            before.len() == total,
                            start.row + removals < total,
                            self.content@.len() == total - k,
                            self.path == old(self).path,
                            self.name == old(self).name,
                            self.cursor_pos == old(self).cursor_pos,
                            self.selection_start == old(self).selection_start,
                            self.visual_mode == old(self).visual_mode,
                            self.modified == old(self).modified,
                            self.content@ =~= before.subrange(0, start.row as int + 1)
                                + before.subrange(
                                start.row as int + 1 + k as int,
                                before.len() as int,
                            ),
                        decreases removals - k,
                    {
                        self.content.remove(start.row + 1);
                        proof {
                            assert(self.content@ =~= before.subrange(0, start.row as int + 1)
                                + before.subrange(
                                start.row as int + 2 + k as int,
                                before.len() as int,
                            ));
                        }
                        k += 1;
                    }
                    proof {
                        let s0 = old(self).norm_start();
                        let e0 = old(self).norm_end();
                        assert(forall|i: int| (s0.0 as int) < i < self.content@.len()
                            ==> self.line_at(i) == old(self).line_at(i + (e0.0 - s0.0)));
                        assert(forall|i: int| 0 <= i < s0.0 as int ==> self.line_at(i) == old(
                            self,
                        ).line_at(i));
                    }
                }
                proof {
                    assert(self.lines() =~= old(self).delete_selection_lines());
                }
                self.cursor_pos = (start.row, start.col);
                self.selection_start = None;
                self.visual_mode = false;
                self.modified = true;
                true
            },
        }
    }

    /// Move the cursor one step in the given direction. Vertical moves
    /// clamp the column to the destination line; Left and Right wrap across
    /// line ends but never past the buffer. Page moves step by eight lines.
    /// In visual mode with no anchor yet, the move anchors the selection at
    /// the new cursor.
    pub fn move_cursor(&mut self, direction: CursorMovement)
        requires
            old(self).wf(),
        ensures
            move_cursor_post(*old(self), *final(self), direction),

    {
        let n = self.content.len();
        let (mut row, mut col) = self.cursor_pos;
        match direction {
            CursorMovement::Up => {
                if row > 0 {
                    row -= 1;
                    let len = self.content[row].as_str().unicode_len();
                    if col > len {
                        col = len;
                    }
                }
            },
            CursorMovement::Down => {
                if n - row > 1 {
                    row += 1;
                    let len = self.content[row].as_str().unicode_len();
                    if col > len {
                        col = len;
                    }
                }
            },
            CursorMovement::Left => {
                if col > 0 {
                    col -= 1;
                } else if row > 0 {
                    row -= 1;
                    col = self.content[row].as_str().unicode_len();
                }
            },
            CursorMovement::Right => {
                let len = self.content[row].as_str().unicode_len();
                if col < len {
                    col += 1;
                } else if n - row > 1 {
                    row += 1;
                    col = 0;
                }
            },
            CursorMovement::LineStart => {
                col = 0;
            },
            CursorMovement::LineEnd => {
                col = self.content[row].as_str().unicode_len();
            },
            CursorMovement::PageUp => {
                if row >= 8 {
                    row -= 8;
                } else {
                    row = 0;
                }
                let len = self.content[row].as_str().unicode_len();
                if col > len {
                    col = len;
                }
            },
            CursorMovement::PageDown => {
                if n - row > 8 {
                    row += 8;
                } else {
                    row = n - 1;
                }
                let len = self.content[row].as_str().unicode_len();
                if col > len {
                    col = len;
                }
            },
            CursorMovement::BufferStart => {
                row = 0;
                col = 0;
            },
            CursorMovement::BufferEnd => {
                row = n - 1;
                col = self.content[row].as_str().unicode_len();
            },
        }
        self.cursor_pos = (row, col);
        if self.visual_mode && self.selection_start.is_none() {
            self.selection_start = Some(self.cursor_pos);
        }
    }

    /// The number of digits in the decimal rendering of a number.
    pub fn count_digits(n: usize) -> (d: usize)
        ensures
            d == crate::text::spec_decimal(n as nat).len(),
            d >= 1,
    {
        proof {
            crate::text::lemma_decimal_len(n as nat);
        }
        if n == 0 {
            return 1;
        }
        let mut digits: usize = 0;
        let mut m = n;
        while m > 0
            invariant
                n >= 1,
                crate::text::spec_decimal_len(n as nat) <= n,
                m > 0 ==> digits + crate::text::spec_decimal_len(m as nat)
                    == crate::text::spec_decimal_len(n as nat),
                m == 0 ==> digits == crate::text::spec_decimal_len(n as nat),
            decreases m,
        {
            proof {
                assert(crate::text::spec_decimal_len(m as nat) == if m < 10 {
                    1nat
                } else {
                    crate::text::spec_decimal_len((m / 10) as nat) + 1
                });
            }
            digits += 1;
            m /= 10;
        }
        digits
    }

    /// What the line-number gutter width works out to: digits of the line
    /// count, at least four, plus one column of spacing.
    pub open spec fn line_number_width_spec(self) -> int {
        vstd::math::max(
            crate::text::spec_decimal_len(
                vstd::math::max(self.content@.len() as int, 1) as nat,
            ) as int,
            4,
        ) + 1
    }

    /// The width of the line-number gutter.
    pub fn line_number_width(&self) -> (w: usize)
        ensures
            w == self.line_number_width_spec(),
    {
        let total_lines = if self.content.len() > 1 {
            self.content.len()
        } else {
            1
        };
        let calculated_width = Self::count_digits(total_lines);
        proof {
            crate::text::lemma_decimal_len(total_lines as nat);
        }
        let width = if calculated_width > 4 {
            calculated_width
        } else {
            4
        };
        width + 1
    }

    /// The middle block's length is the summed weight of the rows it spans.
    pub proof fn lemma_mid_block_len(lines: Seq<Seq<char>>, lo: int, hi: int)
        requires
            0 <= lo <= hi <= lines.len(),
        ensures
            Self::mid_block(lines, lo, hi).len() == total_chars(lines.subrange(lo, hi)),
        decreases hi - lo,
    {
        if lo >= hi {
            assert(lines.subrange(lo, hi) =~= Seq::<Seq<char>>::empty());
        } else {
            Self::lemma_mid_block_len(lines, lo + 1, hi);
            assert(lines.subrange(lo, hi).drop_first() =~= lines.subrange(lo + 1, hi));
            assert(lines.subrange(lo, hi)[0] == lines[lo]);
        }
    }

    /// Extending the middle block by one row appends that row's characters
    /// and a newline.
    pub proof fn lemma_mid_block_push(lines: Seq<Seq<char>>, lo: int, hi: int)
        requires
            lo <= hi,
        ensures
            hi > lo ==> Self::mid_block(lines, lo, hi) == Self::mid_block(lines, lo, hi - 1) + (
            lines[hi - 1] + seq!['\n']),
        decreases hi - lo,
    {
        if hi > lo {
            if hi - 1 == lo {
                assert(Self::mid_block(lines, lo, lo) == Seq::<char>::empty());
                assert(Self::mid_block(lines, lo + 1, hi) == Seq::<char>::empty());
                assert(Self::mid_block(lines, lo, hi) == lines[lo] + seq!['\n'] + Self::mid_block(
                    lines,
                    lo + 1,
                    hi,
                ));
                assert(Self::mid_block(lines, lo, hi) =~= Self::mid_block(lines, lo, hi - 1) + (
                lines[hi - 1] + seq!['\n']));
            } else {
                Self::lemma_mid_block_push(lines, lo + 1, hi);
                assert(Self::mid_block(lines, lo, hi) == lines[lo] + seq!['\n'] + Self::mid_block(
                    lines,
                    lo + 1,
                    hi,
                ));
                assert(Self::mid_block(lines, lo, hi - 1) == lines[lo] + seq!['\n']
                    + Self::mid_block(lines, lo + 1, hi - 1));
                assert(Self::mid_block(lines, lo, hi) =~= Self::mid_block(lines, lo, hi - 1) + (
                lines[hi - 1] + seq!['\n']));
            }
        }
    }
}

/// A buffer with its selection dropped and visual mode left; nothing else
/// changes.
pub open spec fn spec_clear_selection(b: Buffer) -> Buffer {
    Buffer { selection_start: None, visual_mode: false, ..b }
}

/// Clearing the selection twice yields the same state as clearing it once:
/// the selection is gone and visual mode is off either way, and no other
/// field is touched.
pub proof fn lemma_clear_selection_idempotent(b: Buffer)
    ensures
        spec_clear_selection(spec_clear_selection(b)) == spec_clear_selection(b),
{
}

/// Round trip of selection reading and removal: deleting the selection
/// shortens the document by exactly the length of the text that
/// `get_selected_text` returns, line joins included.
pub proof fn lemma_selection_round_trip(b: Buffer)
    requires
        b.wf(),
        b.selection_wf(),
        b.selection_start is Some,
    ensures
        doc(b.delete_selection_lines()).len() + b.sel_text().len() == doc(b.lines()).len(),
{
    let s = b.norm_start();
    let e = b.norm_end();
    let n = b.lines().len() as int;
    let pre = b.lines().subrange(0, s.0 as int);
    let post = b.lines().subrange(e.0 as int + 1, n);
    let merged = b.line_at(s.0 as int).take(s.1 as int) + b.line_at(e.0 as int).skip(e.1 as int);
    let after = b.delete_selection_lines();

    // Both line vectors split into prefix, affected middle, suffix.
    assert(b.lines() =~= pre + b.lines().subrange(s.0 as int, e.0 as int + 1) + post);
    lemma_total_concat(pre + b.lines().subrange(s.0 as int, e.0 as int + 1), post);
    lemma_total_concat(pre, b.lines().subrange(s.0 as int, e.0 as int + 1));
    lemma_total_concat(pre + seq![merged], post);
    lemma_total_concat(pre, seq![merged]);
    assert(total_chars(Seq::<Seq<char>>::empty()) == 0);
    assert(total_chars(seq![merged]) == merged.len() + 1) by {
        assert(total_chars(Seq::<Seq<char>>::empty()) == 0);
        assert(seq![merged].drop_first() =~= Seq::<Seq<char>>::empty());
    }

    lemma_doc_len(b.lines());
    lemma_doc_len(after);
    assert(after.len() >= 1);

    if s.0 == e.0 {
        let mid = b.lines().subrange(s.0 as int, e.0 as int + 1);
        assert(mid =~= seq![b.line_at(s.0 as int)]);
        assert(total_chars(mid) == b.line_at(s.0 as int).len() + 1) by {
            assert(total_chars(Seq::<Seq<char>>::empty()) == 0);
            assert(mid.drop_first() =~= Seq::<Seq<char>>::empty());
        }
        assert(s.1 <= e.1);
        assert(e.1 <= b.line_at(e.0 as int).len());
        assert(b.sel_text().len() == e.1 - s.1);
        assert(merged.len() == b.line_at(s.0 as int).len() - (e.1 - s.1));
    } else {
        let mid = b.lines().subrange(s.0 as int, e.0 as int + 1);
        let inner = b.lines().subrange(s.0 as int + 1, e.0 as int);
        assert(mid =~= seq![b.line_at(s.0 as int)] + inner + seq![b.line_at(e.0 as int)]);
        lemma_total_concat(seq![b.line_at(s.0 as int)] + inner, seq![b.line_at(e.0 as int)]);
        lemma_total_concat(seq![b.line_at(s.0 as int)], inner);
        assert(total_chars(seq![b.line_at(s.0 as int)]) == b.line_at(s.0 as int).len() + 1) by {
            assert(total_chars(Seq::<Seq<char>>::empty()) == 0);
            assert(seq![b.line_at(s.0 as int)].drop_first() =~= Seq::<Seq<char>>::empty());
        }
        assert(total_chars(seq![b.line_at(e.0 as int)]) == b.line_at(e.0 as int).len() + 1) by {
            assert(total_chars(Seq::<Seq<char>>::empty()) == 0);
            assert(seq![b.line_at(e.0 as int)].drop_first() =~= Seq::<Seq<char>>::empty());
        }
        assert(s.0 < e.0);
        assert(s.1 <= b.line_at(s.0 as int).len());
        assert(e.1 <= b.line_at(e.0 as int).len());
        Buffer::lemma_mid_block_len(b.lines(), s.0 as int + 1, e.0 as int);
        assert(b.sel_text().len() == (b.line_at(s.0 as int).len() - s.1) + 1 + total_chars(inner)
            + e.1);
    }
}

} // verus!
