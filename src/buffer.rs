use vstd::prelude::*;

use crate::text::{char_count, is_whitespace, push_char, slice_string, spaces_string, whitespace};

verus! {

/// Abstract state of a [`TextBuffer`]: the document as lines of characters,
/// the cursor, the clipboard and the indentation width.
pub struct BufferModel {
    pub lines: Seq<Seq<char>>,
    pub cursor_line: int,
    pub cursor_col: int,
    pub clipboard: Option<Seq<Seq<char>>>,
    pub tab_width: int,
}

impl BufferModel {
    /// Well-formedness, kept by every operation: the document has at least one
    /// line, the cursor stands on a line of it, at a column no greater than that
    /// line's length, and the indentation width is positive.
    pub open spec fn wf(self) -> bool {
        &&& self.lines.len() >= 1
        &&& 0 <= self.cursor_line < self.lines.len()
        &&& 0 <= self.cursor_col <= self.lines[self.cursor_line].len()
        &&& self.tab_width > 0
    }

    pub open spec fn current_line(self) -> Seq<char> {
        self.lines[self.cursor_line]
    }

    pub open spec fn with_cursor(self, line: int, col: int) -> BufferModel {
        BufferModel { cursor_line: line, cursor_col: col, ..self }
    }

    pub open spec fn line_len(self, i: int) -> int {
        self.lines[i].len() as int
    }

    pub open spec fn with_clipboard(self, clip: Seq<Seq<char>>) -> BufferModel {
        BufferModel { clipboard: Some(clip), ..self }
    }

    pub open spec fn with_line(self, i: int, line: Seq<char>) -> BufferModel {
        BufferModel { lines: self.lines.update(i, line), ..self }
    }

    pub open spec fn moved_to(self, line: int, col: int) -> BufferModel {
        if 0 <= line < self.lines.len() {
            self.with_cursor(line, min(col, self.line_len(line)))
        } else {
            self
        }
    }

    pub open spec fn moved_left(self) -> BufferModel {
        if self.cursor_col > 0 {
            self.with_cursor(self.cursor_line, self.cursor_col - 1)
        } else if self.cursor_line > 0 {
            self.with_cursor(self.cursor_line - 1, self.line_len(self.cursor_line - 1))
        } else {
            self
        }
    }

    pub open spec fn moved_right(self) -> BufferModel {
        if self.cursor_col < self.line_len(self.cursor_line) {
            self.with_cursor(self.cursor_line, self.cursor_col + 1)
        } else if self.cursor_line + 1 < self.lines.len() {
            self.with_cursor(self.cursor_line + 1, 0)
        } else {
            self
        }
    }

    pub open spec fn moved_up(self) -> BufferModel {
        if self.cursor_line > 0 {
            self.moved_to(self.cursor_line - 1, self.cursor_col)
        } else {
            self
        }
    }

    pub open spec fn moved_down(self) -> BufferModel {
        if self.cursor_line + 1 < self.lines.len() {
            self.moved_to(self.cursor_line + 1, self.cursor_col)
        } else {
            self
        }
    }

    pub open spec fn moved_to_line_start(self) -> BufferModel {
        self.with_cursor(self.cursor_line, 0)
    }

    pub open spec fn moved_to_line_end(self) -> BufferModel {
        self.with_cursor(self.cursor_line, self.line_len(self.cursor_line))
    }

    /// Cursor moved to the start of the word that ends at it, the word's text
    /// in the clipboard.
    pub open spec fn word_left_selected(self) -> BufferModel {
        if self.cursor_col == 0 {
            self
        } else {
            let start = word_start(self.current_line(), self.cursor_col);
            self.with_cursor(self.cursor_line, start).with_clipboard(
                seq![self.current_line().subrange(start, self.cursor_col)],
            )
        }
    }

    /// Cursor moved to the end of the word that starts at it, the word's text
    /// in the clipboard.
    pub open spec fn word_right_selected(self) -> BufferModel {
        if self.cursor_col >= self.line_len(self.cursor_line) {
            self
        } else {
            let end = word_end(self.current_line(), self.cursor_col);
            self.with_cursor(self.cursor_line, end).with_clipboard(
                seq![self.current_line().subrange(self.cursor_col, end)],
            )
        }
    }

    pub open spec fn char_left_selected(self) -> BufferModel {
        if self.cursor_col == 0 {
            self
        } else {
            self.with_cursor(self.cursor_line, self.cursor_col - 1).with_clipboard(
                seq![seq![self.current_line()[self.cursor_col - 1]]],
            )
        }
    }

    pub open spec fn char_right_selected(self) -> BufferModel {
        if self.cursor_col >= self.line_len(self.cursor_line) {
            self
        } else {
            self.with_cursor(self.cursor_line, self.cursor_col + 1).with_clipboard(
                seq![seq![self.current_line()[self.cursor_col]]],
            )
        }
    }

    /// The current line split at the cursor; the cursor at the start of the
    /// second part.
    pub open spec fn newline_inserted(self) -> BufferModel {
        let cur = self.current_line();
        BufferModel {
            lines: self.lines.update(self.cursor_line, cur.take(self.cursor_col)).insert(
                self.cursor_line + 1,
                cur.skip(self.cursor_col),
            ),
            cursor_line: self.cursor_line + 1,
            cursor_col: 0,
            ..self
        }
    }

    pub open spec fn char_inserted(self, c: char) -> BufferModel {
        if c == '\n' {
            self.newline_inserted()
        } else {
            self.with_line(
                self.cursor_line,
                self.current_line().insert(self.cursor_col, c),
            ).with_cursor(self.cursor_line, self.cursor_col + 1)
        }
    }

    /// The characters of `s` inserted one after another.
    pub open spec fn str_inserted(self, s: Seq<char>) -> BufferModel
        decreases s.len(),
    {
        if s.len() == 0 {
            self
        } else {
            self.str_inserted(s.drop_last()).char_inserted(s.last())
        }
    }

    pub open spec fn deleted_before(self) -> BufferModel {
        let cl = self.cursor_line;
        if self.cursor_col > 0 {
            self.with_line(cl, self.current_line().remove(self.cursor_col - 1)).with_cursor(
                cl,
                self.cursor_col - 1,
            )
        } else if cl > 0 {
            BufferModel {
                lines: self.lines.update(cl - 1, self.lines[cl - 1] + self.lines[cl]).remove(cl),
                cursor_line: cl - 1,
                cursor_col: self.line_len(cl - 1),
                ..self
            }
        } else {
            self
        }
    }

    pub open spec fn deleted_at(self) -> BufferModel {
        let cl = self.cursor_line;
        if self.cursor_col < self.line_len(cl) {
            self.with_line(cl, self.current_line().remove(self.cursor_col))
        } else if cl + 1 < self.lines.len() {
            BufferModel {
                lines: self.lines.update(cl, self.lines[cl] + self.lines[cl + 1]).remove(cl + 1),
                ..self
            }
        } else {
            self
        }
    }

    /// The document without `rest`'s complement: `rest` as the lines, the
    /// cursor on line `line` (or at the origin of a single empty line when
    /// `rest` is empty), with the column clamped, and `clip` in the clipboard.
    pub open spec fn after_cut(self, rest: Seq<Seq<char>>, line: int, clip: Seq<Seq<char>>) -> BufferModel {
        if rest.len() == 0 {
            BufferModel {
                lines: seq![Seq::<char>::empty()],
                cursor_line: 0,
                cursor_col: 0,
                clipboard: Some(clip),
                ..self
            }
        } else {
            BufferModel {
                lines: rest,
                cursor_line: line,
                cursor_col: min(self.cursor_col, rest[line].len() as int),
                clipboard: Some(clip),
                ..self
            }
        }
    }

    pub open spec fn current_line_cut(self) -> BufferModel {
        let rest = self.lines.remove(self.cursor_line);
        let line = if self.cursor_line >= rest.len() {
            rest.len() - 1
        } else {
            self.cursor_line
        };
        self.after_cut(rest, line, seq![self.current_line()])
    }

    pub open spec fn lines_cut(self, start: int, end: int) -> BufferModel {
        if start > end || end >= self.lines.len() {
            self
        } else {
            let rest = self.lines.take(start) + self.lines.skip(end + 1);
            let cl = self.cursor_line;
            let line = if cl > end {
                cl - (end - start + 1)
            } else if cl >= start {
                min(start, rest.len() - 1)
            } else {
                cl
            };
            self.after_cut(rest, line, self.lines.subrange(start, end + 1))
        }
    }

    pub open spec fn current_line_copied(self) -> BufferModel {
        self.with_clipboard(seq![self.current_line()])
    }

    /// The clipboard's lines inserted at the cursor: the first joins the text
    /// before the cursor, the last the text after it, and the cursor stands at
    /// the end of the inserted text.
    pub open spec fn pasted(self) -> BufferModel {
        match self.clipboard {
            Some(clip) if clip.len() > 0 => {
                let cl = self.cursor_line;
                let before = self.current_line().take(self.cursor_col);
                let after = self.current_line().skip(self.cursor_col);
                let k = clip.len() as int;
                if k == 1 {
                    self.with_line(cl, before + clip[0] + after).with_cursor(
                        cl,
                        (before.len() + clip[0].len()) as int,
                    )
                } else {
                    BufferModel {
                        lines: self.lines.take(cl) + seq![before + clip[0]] + clip.subrange(1, k - 1)
                            + seq![clip[k - 1] + after] + self.lines.skip(cl + 1),
                        cursor_line: cl + k - 1,
                        cursor_col: clip[k - 1].len() as int,
                        ..self
                    }
                }
            },
            _ => self,
        }
    }

    pub open spec fn current_line_indented(self) -> BufferModel {
        self.with_line(
            self.cursor_line,
            spaces(self.tab_width) + self.current_line(),
        ).with_cursor(self.cursor_line, self.cursor_col + self.tab_width)
    }

    pub open spec fn current_line_unindented(self) -> BufferModel {
        let n = leading_spaces(self.current_line(), 0, self.tab_width);
        self.with_line(self.cursor_line, self.current_line().skip(n)).with_cursor(
            self.cursor_line,
            if self.cursor_col >= n {
                self.cursor_col - n
            } else {
                0
            },
        )
    }

    pub open spec fn lines_indented(self, start: int, end: int) -> BufferModel {
        let pad = spaces(self.tab_width);
        BufferModel {
            lines: Seq::new(
                self.lines.len(),
                |i: int|
                    if start <= i <= end {
                        pad + self.lines[i]
                    } else {
                        self.lines[i]
                    },
            ),
            cursor_col: if start <= self.cursor_line <= end {
                self.cursor_col + self.tab_width
            } else {
                self.cursor_col
            },
            ..self
        }
    }

    pub open spec fn tab_width_set(self, width: int) -> BufferModel {
        if width > 0 {
            BufferModel { tab_width: width, ..self }
        } else {
            self
        }
    }
}

pub open spec fn min(a: int, b: int) -> int {
    if a <= b {
        a
    } else {
        b
    }
}

/// Start of the run of non-white-space characters that ends at `col`.
pub open spec fn word_start(s: Seq<char>, col: int) -> int
    decreases col,
{
    if col <= 0 || whitespace(s[col - 1]) {
        col
    } else {
        word_start(s, col - 1)
    }
}

/// End of the run of non-white-space characters that starts at `col`.
pub open spec fn word_end(s: Seq<char>, col: int) -> int
    decreases s.len() - col,
{
    if col >= s.len() || whitespace(s[col]) {
        col
    } else {
        word_end(s, col + 1)
    }
}

/// End of the run of spaces that starts at `i`, stopping at `limit`.
pub open spec fn leading_spaces(s: Seq<char>, i: int, limit: int) -> int
    decreases limit - i,
{
    if i >= limit || i >= s.len() || s[i] != ' ' {
        i
    } else {
        leading_spaces(s, i + 1, limit)
    }
}

pub open spec fn spaces(n: int) -> Seq<char> {
    Seq::new(n as nat, |i: int| ' ')
}

/// The lines, each followed by a newline, as one text.
pub open spec fn joined(lines: Seq<Seq<char>>) -> Seq<char>
    decreases lines.len(),
{
    if lines.len() == 0 {
        Seq::empty()
    } else {
        joined(lines.drop_last()) + lines.last() + seq!['\n']
    }
}


/// A document of lines with a cursor, a clipboard and an indentation width.
#[derive(Debug, Clone)]
pub struct TextBuffer {
    lines: Vec<String>,
    cursor_line: usize,
    cursor_col: usize,
    clipboard: Option<Vec<String>>,
    tab_width: usize,
}

impl View for TextBuffer {
    type V = BufferModel;

    closed spec fn view(&self) -> BufferModel {
        BufferModel {
            lines: self.lines.deep_view(),
            cursor_line: self.cursor_line as int,
            cursor_col: self.cursor_col as int,
            clipboard: match self.clipboard {
                Some(c) => Some(c.deep_view()),
                None => None,
            },
            tab_width: self.tab_width as int,
        }
    }
}

impl TextBuffer {
    /// State of a new buffer.
    pub open spec fn new_model() -> BufferModel {
        BufferModel {
            lines: seq![Seq::<char>::empty()],
            cursor_line: 0,
            cursor_col: 0,
            clipboard: None,
            tab_width: 4,
        }
    }

    /// A buffer holding one empty line, with the cursor at its start, no
    /// clipboard and an indentation width of four.
    pub fn new() -> (r: TextBuffer)
        ensures
            r@ == TextBuffer::new_model(),
            r@.wf(),
    {
        let r = TextBuffer {
            lines: vec![String::new()],
            cursor_line: 0,
            cursor_col: 0,
            clipboard: None,
            tab_width: 4,
        };
        proof {
            assert(r@.lines =~= seq![Seq::<char>::empty()]);
        }
        r
    }

    /// Moves the cursor to `line`, with the column clamped to that line's
    /// length; nothing changes when `line` is past the last line.
    pub fn move_cursor(&mut self, line: usize, col: usize)
        requires
            old(self)@.wf(),
        ensures
            final(self)@ == old(self)@.moved_to(line as int, col as int),
            final(self)@.wf(),
    {
        if line < self.lines.len() {
            self.cursor_line = line;
            let len = char_count(&self.lines[line]);
            self.cursor_col = if col < len { col } else { len };
        }
    }

    /// Splits the current line at the cursor; the text after the cursor becomes
    /// the next line and the cursor moves to its start.
    pub fn insert_newline(&mut self)
        requires
            old(self)@.wf(),
        ensures
            final(self)@ == old(self)@.newline_inserted(),
            final(self)@.wf(),
    {
        let cl = self.cursor_line;
        let col = self.cursor_col;
        let len = char_count(&self.lines[cl]);
        let before = slice_string(&self.lines[cl], 0, col);
        let after = slice_string(&self.lines[cl], col, len);
        let count = self.lines.len();
        assert(cl < count);
        self.lines[cl] = before;
        self.lines.insert(cl + 1, after);
        self.cursor_line = cl + 1;
        self.cursor_col = 0;
        proof {
            assert(self@.lines =~= old(self)@.newline_inserted().lines);
        }
    }

    /// Inserts `ch` at the cursor and moves the cursor past it; a newline
    /// splits the line instead.
    pub fn insert_char(&mut self, ch: char)
        requires
            old(self)@.wf(),
        ensures
            final(self)@ == old(self)@.char_inserted(ch),
            final(self)@.wf(),
    {
        if ch == '\n' {
            self.insert_newline();
        } else {
            let cl = self.cursor_line;
            let col = self.cursor_col;
            let len = char_count(&self.lines[cl]);
            let mut line = slice_string(&self.lines[cl], 0, col);
            push_char(&mut line, ch);
            let after = slice_string(&self.lines[cl], col, len);
            line.append(after.as_str());
            // A string's length fits in usize, so the new column does too.
            let new_len = char_count(&line);
            proof {
                let cur = old(self)@.current_line();
                assert(line@ =~= cur.insert(col as int, ch));
                assert(col + 1 <= new_len);
            }
            self.lines[cl] = line;
            self.cursor_col = col + 1;
            proof {
                assert(self@.lines =~= old(self)@.char_inserted(ch).lines);
            }
        }
    }

    /// Inserts the characters of `text` one after another, as `insert_char`
    /// would.
    pub fn insert_str(&mut self, text: &str)
        requires
            old(self)@.wf(),
        ensures
            final(self)@ == old(self)@.str_inserted(text@),
            final(self)@.wf(),
    {
        let ghost start = self@;
        let n = text.unicode_len();
        let mut i: usize = 0;
        while i < n
            invariant
                0 <= i <= n,
                n == text@.len(),
                self@.wf(),
                self@ == start.str_inserted(text@.take(i as int)),
            decreases n - i,
        {
            let c = text.get_char(i);
            self.insert_char(c);
            proof {
                assert(text@.take(i + 1).drop_last() =~= text@.take(i as int));
            }
            i += 1;
        }
        proof {
            assert(text@.take(n as int) =~= text@);
        }
    }

    /// Backspace: removes the character before the cursor, or joins the
    /// current line onto the end of the previous one.
    pub fn delete_char_before_cursor(&mut self)
        requires
            old(self)@.wf(),
        ensures
            final(self)@ == old(self)@.deleted_before(),
            final(self)@.wf(),
    {
        let cl = self.cursor_line;
        let col = self.cursor_col;
        if col > 0 {
            let len = char_count(&self.lines[cl]);
            let mut line = slice_string(&self.lines[cl], 0, col - 1);
            let after = slice_string(&self.lines[cl], col, len);
            line.append(after.as_str());
            proof {
                assert(line@ =~= old(self)@.current_line().remove(col - 1));
            }
            self.lines[cl] = line;
            self.cursor_col = col - 1;
            proof {
                assert(self@.lines =~= old(self)@.deleted_before().lines);
            }
        } else if cl > 0 {
            let tail = self.lines.remove(cl);
            let mut prev = self.lines[cl - 1].clone();
            let prev_len = char_count(&prev);
            prev.append(tail.as_str());
            self.lines[cl - 1] = prev;
            self.cursor_line = cl - 1;
            self.cursor_col = prev_len;
            proof {
                assert(self@.lines =~= old(self)@.deleted_before().lines);
            }
        }
    }

    /// Delete: removes the character at the cursor, or joins the next line
    /// onto the end of the current one.
    pub fn delete_char_at_cursor(&mut self)
        requires
            old(self)@.wf(),
        ensures
            final(self)@ == old(self)@.deleted_at(),
            final(self)@.wf(),
    {
        let cl = self.cursor_line;
        let col = self.cursor_col;
        let len = char_count(&self.lines[cl]);
        if col < len {
            let mut line = slice_string(&self.lines[cl], 0, col);
            let after = slice_string(&self.lines[cl], col + 1, len);
            line.append(after.as_str());
            proof {
                assert(line@ =~= old(self)@.current_line().remove(col as int));
            }
            self.lines[cl] = line;
            proof {
                assert(self@.lines =~= old(self)@.deleted_at().lines);
            }
        } else if cl < self.lines.len() - 1 {
            let next = self.lines.remove(cl + 1);
            let mut line = self.lines[cl].clone();
            line.append(next.as_str());
            self.lines[cl] = line;
            proof {
                assert(self@.lines =~= old(self)@.deleted_at().lines);
            }
        }
    }

    /// Removes the current line into the clipboard; the cursor stays on a
    /// remaining line, with its column clamped.
    pub fn cut_current_line(&mut self)
        requires
            old(self)@.wf(),
        ensures
            final(self)@ == old(self)@.current_line_cut(),
            final(self)@.wf(),
    {
        let cut = self.lines.remove(self.cursor_line);
        self.clipboard = Some(vec![cut]);
        proof {
            assert(self@.clipboard->0 =~= seq![old(self)@.current_line()]);
            assert(self@.lines =~= old(self)@.lines.remove(old(self)@.cursor_line));
        }
        self.settle_after_cut();
        if self.lines.len() > 0 && self.cursor_line >= self.lines.len() {
            self.cursor_line = self.lines.len() - 1;
        }
        self.clamp_column_after_cut();
    }

    /// Removes lines `start` to `end` (inclusive) into the clipboard; nothing
    /// changes unless `start <= end` and `end` is a line of the document.
    pub fn cut_lines(&mut self, start_line_idx: usize, end_line_idx: usize)
        requires
            old(self)@.wf(),
        ensures
            final(self)@ == old(self)@.lines_cut(start_line_idx as int, end_line_idx as int),
            final(self)@.wf(),
    {
        if start_line_idx > end_line_idx || end_line_idx >= self.lines.len() {
            return;
        }
        let ghost lines0 = self.lines@;
        let mut cut: Vec<String> = Vec::new();
        let mut i: usize = end_line_idx + 1;
        assert(self.lines@ =~= lines0.take(i as int) + lines0.skip(end_line_idx + 1));
        assert(cut@ =~= lines0.subrange(i as int, end_line_idx + 1));
        while i > start_line_idx
            invariant
                start_line_idx <= i <= end_line_idx + 1,
                end_line_idx < lines0.len(),
                self.lines@ == lines0.take(i as int) + lines0.skip(end_line_idx + 1),
                cut@ == lines0.subrange(i as int, end_line_idx + 1),
                self.cursor_line == old(self).cursor_line,
                self.cursor_col == old(self).cursor_col,
                self.tab_width == old(self).tab_width,
            decreases i,
        {
            let line = self.lines.remove(i - 1);
            cut.insert(0, line);
            i -= 1;
            assert(self.lines@ =~= lines0.take(i as int) + lines0.skip(end_line_idx + 1));
            assert(cut@ =~= lines0.subrange(i as int, end_line_idx + 1));
        }
        proof {
            let m = old(self)@.lines;
            assert(self.lines.deep_view() =~= m.take(start_line_idx as int) + m.skip(end_line_idx + 1));
        }
        self.clipboard = Some(cut);
        proof {
            assert(self@.clipboard->0 =~= old(self)@.lines.subrange(
                start_line_idx as int,
                end_line_idx + 1,
            ));
        }
        self.settle_after_cut();
        let count = self.lines.len();
        if count > 0 {
            if self.cursor_line > end_line_idx {
                self.cursor_line = self.cursor_line - (end_line_idx - start_line_idx + 1);
            } else if self.cursor_line >= start_line_idx {
                self.cursor_line = if start_line_idx < count - 1 {
                    start_line_idx
                } else {
                    count - 1
                };
            }
        }
        self.clamp_column_after_cut();
    }

    /// After lines were removed: an emptied document gets one empty line back,
    /// with the cursor at its start.
    fn settle_after_cut(&mut self)
        ensures
            old(self).lines@.len() == 0 ==> final(self).lines.deep_view() == seq![Seq::<char>::empty()]
                && final(self).lines@.len() == 1 && final(self).cursor_line == 0
                && final(self).cursor_col == 0,
            old(self).lines@.len() > 0 ==> *final(self) == *old(self),
            final(self).clipboard == old(self).clipboard,
            final(self).tab_width == old(self).tab_width,
    {
        if self.lines.len() == 0 {
            self.lines.push(String::new());
            self.cursor_line = 0;
            self.cursor_col = 0;
            proof {
                assert(self.lines.deep_view() =~= seq![Seq::<char>::empty()]);
            }
        }
    }

    fn clamp_column_after_cut(&mut self)
        requires
            old(self).cursor_line < old(self).lines@.len(),
        ensures
            final(self)@ == old(self)@.with_cursor(
                old(self)@.cursor_line,
                min(old(self)@.cursor_col, old(self)@.line_len(old(self)@.cursor_line)),
            ),
    {
        let len = char_count(&self.lines[self.cursor_line]);
        if self.cursor_col > len {
            self.cursor_col = len;
        }
    }

    /// Puts a copy of the current line in the clipboard.
    pub fn copy_current_line(&mut self)
        requires
            old(self)@.wf(),
        ensures
            final(self)@ == old(self)@.current_line_copied(),
            final(self)@.wf(),
    {
        self.clipboard = Some(vec![self.lines[self.cursor_line].clone()]);
        proof {
            assert(self@.clipboard->0 =~= seq![old(self)@.current_line()]);
        }
    }

    /// Inserts the clipboard's lines at the cursor (see `BufferModel::pasted`);
    /// nothing changes when the clipboard is absent or empty.
    pub fn paste(&mut self)
        requires
            old(self)@.wf(),
        ensures
            final(self)@ == old(self)@.pasted(),
            final(self)@.wf(),
    {
        if let Some(clip) = &self.clipboard {
            let k = clip.len();
            if k == 0 {
                return;
            }
            let cl = self.cursor_line;
            let col = self.cursor_col;
            let len = char_count(&self.lines[cl]);
            let mut first = slice_string(&self.lines[cl], 0, col);
            let after = slice_string(&self.lines[cl], col, len);
            first.append(clip[0].as_str());
            if k == 1 {
                let new_col = char_count(&first);
                first.append(after.as_str());
                self.lines[cl] = first;
                self.cursor_col = new_col;
                proof {
                    assert(self@.lines =~= old(self)@.pasted().lines);
                }
            } else {
                let ghost lines0 = self.lines@;
                self.lines[cl] = first;
                let ghost first_s = self.lines@[cl as int];
                let mut i: usize = 1;
                assert(self.lines@ =~= lines0.take(cl as int) + seq![first_s] + clip@.subrange(1, i as int)
                    + lines0.skip(cl + 1));
                while i < k - 1
                    invariant
                        1 <= i <= k - 1,
                        k == clip@.len(),
                        old(self).clipboard == Some(*clip),
                        self.clipboard == old(self).clipboard,
                        self.cursor_line == cl,
                        self.cursor_col == col,
                        self.tab_width == old(self).tab_width,
                        cl < lines0.len(),
                        self.lines@ == lines0.take(cl as int) + seq![first_s] + clip@.subrange(1, i as int)
                            + lines0.skip(cl + 1),
                    decreases k - i,
                {
                    let count = self.lines.len();
                    assert(cl + i <= count);
                    self.lines.insert(cl + i, clip[i].clone());
                    i += 1;
                    assert(self.lines@ =~= lines0.take(cl as int) + seq![first_s] + clip@.subrange(1, i as int)
                        + lines0.skip(cl + 1));
                }
                let mut last = clip[k - 1].clone();
                let new_col = char_count(&last);
                last.append(after.as_str());
                let count = self.lines.len();
                assert(count == lines0.len() + k - 2);
                let ghost last_s = last;
                self.lines.insert(cl + (k - 1), last);
                self.cursor_line = cl + (k - 1);
                self.cursor_col = new_col;
                proof {
                    assert(self.lines@ =~= lines0.take(cl as int) + seq![first_s] + clip@.subrange(
                        1,
                        k - 1,
                    ) + seq![last_s] + lines0.skip(cl + 1));
                    assert(self@.lines =~= old(self)@.pasted().lines);
                }
            }
        }
    }

    /// Prefixes the current line with `tab_width` spaces; the cursor moves
    /// right by as many columns.
    pub fn indent_current_line(&mut self)
        requires
            old(self)@.wf(),
        ensures
            final(self)@ == old(self)@.current_line_indented(),
            final(self)@.wf(),
    {
        let cl = self.cursor_line;
        let mut line = spaces_string(self.tab_width);
        line.append(self.lines[cl].as_str());
        let new_len = char_count(&line);
        assert(self.cursor_col + self.tab_width <= new_len);
        self.lines[cl] = line;
        self.cursor_col = self.cursor_col + self.tab_width;
        proof {
            assert(self@.lines =~= old(self)@.current_line_indented().lines);
        }
    }

    /// Removes up to `tab_width` leading spaces from the current line; the
    /// cursor moves left by as many columns, stopping at the line start.
    pub fn unindent_current_line(&mut self)
        requires
            old(self)@.wf(),
        ensures
            final(self)@ == old(self)@.current_line_unindented(),
            final(self)@.wf(),
    {
        let cl = self.cursor_line;
        let tw = self.tab_width;
        let len = char_count(&self.lines[cl]);
        let ghost cur = self@.current_line();
        let mut removed: usize = 0;
        while removed < tw && removed < len && self.lines[cl].as_str().get_char(removed) == ' '
            invariant
                removed <= tw,
                removed <= len,
                len == cur.len(),
                cur == self.lines@[cl as int]@,
                cl < self.lines@.len(),
                leading_spaces(cur, 0, tw as int) == leading_spaces(cur, removed as int, tw as int),
            decreases tw - removed,
        {
            removed += 1;
        }
        let line = slice_string(&self.lines[cl], removed, len);
        self.lines[cl] = line;
        if self.cursor_col >= removed {
            self.cursor_col = self.cursor_col - removed;
        } else {
            self.cursor_col = 0;
        }
        proof {
            assert(self@.lines =~= old(self)@.current_line_unindented().lines);
        }
    }

    /// Prefixes every line from `start_line_idx` to `end_line_idx` (inclusive,
    /// and within the document) with `tab_width` spaces; the cursor moves right
    /// by as many columns when its line is one of them.
    pub fn indent_lines(&mut self, start_line_idx: usize, end_line_idx: usize)
        requires
            old(self)@.wf(),
        ensures
            final(self)@ == old(self)@.lines_indented(start_line_idx as int, end_line_idx as int),
            final(self)@.wf(),
    {
        let ghost m = self@;
        let tw = self.tab_width;
        let pad = spaces_string(tw);
        let count = self.lines.len();
        let last = if end_line_idx < count - 1 {
            end_line_idx
        } else {
            count - 1
        };
        let mut i = start_line_idx;
        assert(self@.lines =~= Seq::new(
            m.lines.len(),
            |j: int|
                if start_line_idx <= j < i {
                    pad@ + m.lines[j]
                } else {
                    m.lines[j]
                },
        ));
        while i <= last
            invariant
                start_line_idx <= i,
                i <= last + 1 || i == start_line_idx,
                last < count,
                count == m.lines.len(),
                last == min(end_line_idx as int, count - 1),
                pad@ == spaces(tw as int),
                tw == m.tab_width,
                self@.wf(),
                self@ == (BufferModel {
                    lines: Seq::new(
                        m.lines.len(),
                        |j: int|
                            if start_line_idx <= j < i {
                                pad@ + m.lines[j]
                            } else {
                                m.lines[j]
                            },
                    ),
                    cursor_col: if start_line_idx <= m.cursor_line < i {
                        m.cursor_col + tw
                    } else {
                        m.cursor_col
                    },
                    ..m
                }),
            decreases last + 1 - i,
        {
            let ghost prev = self@.lines;
            assert(prev[i as int] == m.lines[i as int]);
            let mut line = pad.clone();
            line.append(self.lines[i].as_str());
            let new_len = char_count(&line);
            assert(i == self.cursor_line ==> self.cursor_col + tw <= new_len);
            self.lines[i] = line;
            assert(self@.lines =~= prev.update(i as int, pad@ + m.lines[i as int]));
            if i == self.cursor_line {
                self.cursor_col = self.cursor_col + tw;
            }
            i += 1;
            proof {
                assert(self@.lines =~= Seq::new(
                    m.lines.len(),
                    |j: int|
                        if start_line_idx <= j < i {
                            pad@ + m.lines[j]
                        } else {
                            m.lines[j]
                        },
                ));
            }
        }
        proof {
            assert(self@.lines =~= m.lines_indented(start_line_idx as int, end_line_idx as int).lines);
        }
    }

    /// Sets the indentation width; a width of zero is ignored.
    pub fn set_tab_width(&mut self, width: usize)
        requires
            old(self)@.wf(),
        ensures
            final(self)@ == old(self)@.tab_width_set(width as int),
            final(self)@.wf(),
    {
        if width > 0 {
            self.tab_width = width;
        }
    }

    /// Moves the cursor to the start of the word that ends at it and puts that
    /// word in the clipboard; nothing changes at the start of a line.
    pub fn select_word_left(&mut self)
        requires
            old(self)@.wf(),
        ensures
            final(self)@ == old(self)@.word_left_selected(),
            final(self)@.wf(),
    {
        let cl = self.cursor_line;
        let col = self.cursor_col;
        if col == 0 {
            return;
        }
        let ghost cur = self@.current_line();
        let mut start = col;
        while start > 0 && !is_whitespace(self.lines[cl].as_str().get_char(start - 1))
            invariant
                start <= col,
                col <= cur.len(),
                cur == self.lines@[cl as int]@,
                cl < self.lines@.len(),
                word_start(cur, col as int) == word_start(cur, start as int),
            decreases start,
        {
            start -= 1;
        }
        let selected = slice_string(&self.lines[cl], start, col);
        self.cursor_col = start;
        self.clipboard = Some(vec![selected]);
        proof {
            assert(self@.clipboard->0 =~= old(self)@.word_left_selected().clipboard->0);
        }
    }

    /// Moves the cursor to the end of the word that starts at it and puts that
    /// word in the clipboard; nothing changes at the end of a line.
    pub fn select_word_right(&mut self)
        requires
            old(self)@.wf(),
        ensures
            final(self)@ == old(self)@.word_right_selected(),
            final(self)@.wf(),
    {
        let cl = self.cursor_line;
        let col = self.cursor_col;
        let len = char_count(&self.lines[cl]);
        if col >= len {
            return;
        }
        let ghost cur = self@.current_line();
        let mut end = col;
        while end < len && !is_whitespace(self.lines[cl].as_str().get_char(end))
            invariant
                col <= end <= len,
                len == cur.len(),
                cur == self.lines@[cl as int]@,
                cl < self.lines@.len(),
                word_end(cur, col as int) == word_end(cur, end as int),
            decreases len - end,
        {
            end += 1;
        }
        let selected = slice_string(&self.lines[cl], col, end);
        self.cursor_col = end;
        self.clipboard = Some(vec![selected]);
        proof {
            assert(self@.clipboard->0 =~= old(self)@.word_right_selected().clipboard->0);
        }
    }

    /// Moves the cursor one character left and puts that character in the
    /// clipboard; nothing changes at the start of a line.
    pub fn select_char_left(&mut self)
        requires
            old(self)@.wf(),
        ensures
            final(self)@ == old(self)@.char_left_selected(),
            final(self)@.wf(),
    {
        let col = self.cursor_col;
        if col == 0 {
            return;
        }
        let c = self.lines[self.cursor_line].as_str().get_char(col - 1);
        let mut selected = String::new();
        push_char(&mut selected, c);
        self.cursor_col = col - 1;
        self.clipboard = Some(vec![selected]);
        proof {
            assert(selected@ =~= seq![c]);
            assert(self@.clipboard->0 =~= old(self)@.char_left_selected().clipboard->0);
        }
    }

    /// Moves the cursor one character right and puts that character in the
    /// clipboard; nothing changes at the end of a line.
    pub fn select_char_right(&mut self)
        requires
            old(self)@.wf(),
        ensures
            final(self)@ == old(self)@.char_right_selected(),
            final(self)@.wf(),
    {
        let col = self.cursor_col;
        let len = char_count(&self.lines[self.cursor_line]);
        if col >= len {
            return;
        }
        let c = self.lines[self.cursor_line].as_str().get_char(col);
        let mut selected = String::new();
        push_char(&mut selected, c);
        self.cursor_col = col + 1;
        self.clipboard = Some(vec![selected]);
        proof {
            assert(selected@ =~= seq![c]);
            assert(self@.clipboard->0 =~= old(self)@.char_right_selected().clipboard->0);
        }
    }

    /// Extends the line selection downwards: the cursor moves to the next
    /// line, keeping its column where that line is long enough.
    pub fn select_line_down(&mut self)
        requires
            old(self)@.wf(),
        ensures
            final(self)@ == old(self)@.moved_down(),
            final(self)@.wf(),
    {
        self.move_cursor_down();
    }

    /// Extends the line selection upwards: the cursor moves to the previous
    /// line, keeping its column where that line is long enough.
    pub fn select_line_up(&mut self)
        requires
            old(self)@.wf(),
        ensures
            final(self)@ == old(self)@.moved_up(),
            final(self)@.wf(),
    {
        self.move_cursor_up();
    }

    /// Moves the cursor to the last line, keeping its column where that line
    /// is long enough.
    pub fn select_line_to_end(&mut self)
        requires
            old(self)@.wf(),
        ensures
            final(self)@ == old(self)@.moved_to(old(self)@.lines.len() - 1, old(self)@.cursor_col),
            final(self)@.wf(),
    {
        let last = self.lines.len() - 1;
        self.move_cursor(last, self.cursor_col);
    }

    /// Moves the cursor to the first line, keeping its column where that line
    /// is long enough.
    pub fn select_line_to_start(&mut self)
        requires
            old(self)@.wf(),
        ensures
            final(self)@ == old(self)@.moved_to(0, old(self)@.cursor_col),
            final(self)@.wf(),
    {
        self.move_cursor(0, self.cursor_col);
    }

    /// Moves the cursor to the previous line, with the column clamped to its
    /// length; nothing changes on the first line.
    pub fn move_cursor_up(&mut self)
        requires
            old(self)@.wf(),
        ensures
            final(self)@ == old(self)@.moved_up(),
            final(self)@.wf(),
    {
        if self.cursor_line > 0 {
            self.move_cursor(self.cursor_line - 1, self.cursor_col);
        }
    }

    /// Moves the cursor to the next line, with the column clamped to its
    /// length; nothing changes on the last line.
    pub fn move_cursor_down(&mut self)
        requires
            old(self)@.wf(),
        ensures
            final(self)@ == old(self)@.moved_down(),
            final(self)@.wf(),
    {
        if self.cursor_line < self.lines.len() - 1 {
            self.move_cursor(self.cursor_line + 1, self.cursor_col);
        }
    }

    /// Moves the cursor one character left, wrapping to the end of the previous
    /// line; nothing changes at the start of the document.
    pub fn move_cursor_left(&mut self)
        requires
            old(self)@.wf(),
        ensures
            final(self)@ == old(self)@.moved_left(),
            final(self)@.wf(),
    {
        if self.cursor_col > 0 {
            self.cursor_col = self.cursor_col - 1;
        } else if self.cursor_line > 0 {
            self.cursor_line = self.cursor_line - 1;
            self.cursor_col = char_count(&self.lines[self.cursor_line]);
        }
    }

    /// Moves the cursor one character right, wrapping to the start of the next
    /// line; nothing changes at the end of the document.
    pub fn move_cursor_right(&mut self)
        requires
            old(self)@.wf(),
        ensures
            final(self)@ == old(self)@.moved_right(),
            final(self)@.wf(),
    {
        let len = char_count(&self.lines[self.cursor_line]);
        if self.cursor_col < len {
            self.cursor_col = self.cursor_col + 1;
        } else if self.cursor_line < self.lines.len() - 1 {
            self.cursor_line = self.cursor_line + 1;
            self.cursor_col = 0;
        }
    }

    /// Moves the cursor to the start of its line.
    pub fn move_cursor_to_beginning_of_line(&mut self)
        requires
            old(self)@.wf(),
        ensures
            final(self)@ == old(self)@.moved_to_line_start(),
            final(self)@.wf(),
    {
        self.cursor_col = 0;
    }

    /// Moves the cursor to the end of its line.
    pub fn move_cursor_to_end_of_line(&mut self)
        requires
            old(self)@.wf(),
        ensures
            final(self)@ == old(self)@.moved_to_line_end(),
            final(self)@.wf(),
    {
        self.cursor_col = char_count(&self.lines[self.cursor_line]);
    }

    /// Not implemented: leaves the buffer unchanged.
    pub fn undo(&mut self)
        ensures
            final(self)@ == old(self)@,
    {
    }

    /// Not implemented: leaves the buffer unchanged.
    pub fn redo(&mut self)
        ensures
            final(self)@ == old(self)@,
    {
    }

    /// Not implemented: leaves the buffer unchanged.
    pub fn select_all(&mut self)
        ensures
            final(self)@ == old(self)@,
    {
    }

    /// Not implemented: leaves the buffer unchanged.
    pub fn cut_selected_text(&mut self)
        ensures
            final(self)@ == old(self)@,
    {
    }

    /// The selection already sits in the clipboard, so there is nothing left
    /// to copy: leaves the buffer unchanged.
    pub fn copy_selected_text(&mut self)
        ensures
            final(self)@ == old(self)@,
    {
    }

    pub fn get_line_count(&self) -> (r: usize)
        ensures
            r == self@.lines.len(),
    {
        self.lines.len()
    }

    /// The line at `line_num`, if the document has one there.
    pub fn get_line(&self, line_num: usize) -> (r: Option<&String>)
        ensures
            r is Some <==> line_num < self@.lines.len(),
            r is Some ==> r->0@ == self@.lines[line_num as int],
    {
        if line_num < self.lines.len() {
            Some(&self.lines[line_num])
        } else {
            None
        }
    }

    pub fn get_cursor_line(&self) -> (r: usize)
        ensures
            r == self@.cursor_line,
    {
        self.cursor_line
    }

    pub fn get_cursor_col(&self) -> (r: usize)
        ensures
            r == self@.cursor_col,
    {
        self.cursor_col
    }

    pub fn get_tab_width(&self) -> (r: usize)
        ensures
            r == self@.tab_width,
    {
        self.tab_width
    }

    /// The clipboard's lines, if any were cut, copied or selected.
    pub fn get_clipboard(&self) -> (r: Option<&Vec<String>>)
        ensures
            r is Some <==> self@.clipboard is Some,
            r is Some ==> r->0.deep_view() == self@.clipboard->0,
    {
        match &self.clipboard {
            Some(c) => Some(c),
            None => None,
        }
    }

    /// The whole document, each line followed by a newline.
    pub fn get_buffer_content(&self) -> (r: String)
        ensures
            r@ == joined(self@.lines),
    {
        let mut r = String::new();
        let mut i: usize = 0;
        while i < self.lines.len()
            invariant
                i <= self.lines@.len(),
                r@ == joined(self@.lines.take(i as int)),
            decreases self.lines@.len() - i,
        {
            r.append(self.lines[i].as_str());
            push_char(&mut r, '\n');
            i += 1;
            assert(self@.lines.take(i as int).drop_last() =~= self@.lines.take(i - 1));
        }
        assert(self@.lines.take(i as int) =~= self@.lines);
        r
    }

    /// The current line with a `|` marking the cursor.
    pub fn cursor_line_marked(&self) -> (r: String)
        requires
            self@.wf(),
        ensures
            r@ == self@.current_line().take(self@.cursor_col) + seq!['|']
                + self@.current_line().skip(self@.cursor_col),
    {
        let line = &self.lines[self.cursor_line];
        let len = char_count(line);
        let mut r = slice_string(line, 0, self.cursor_col);
        push_char(&mut r, '|');
        let after = slice_string(line, self.cursor_col, len);
        r.append(after.as_str());
        r
    }
}

} // verus!
