use vstd::prelude::*;

use crate::buffer::BufferModel;
use crate::viewport::ViewportModel;

verus! {

/// Splitting a line with a newline and then deleting backwards from the start
/// of the new line gives back the original document and cursor.
pub proof fn lemma_split_then_merge(b: BufferModel)
    requires
        b.wf(),
    ensures
        b.newline_inserted().deleted_before() == b,
{
    let cl = b.cursor_line;
    let cur = b.current_line();
    let s = b.newline_inserted();
    assert(s.lines[cl] == cur.take(b.cursor_col));
    assert(s.lines[cl + 1] == cur.skip(b.cursor_col));
    assert(cur.take(b.cursor_col) + cur.skip(b.cursor_col) =~= cur);
    assert(s.deleted_before().lines =~= b.lines);
}

/// Inserting any character and then deleting backwards gives back the
/// original document and cursor.
pub proof fn lemma_insert_then_backspace(b: BufferModel, c: char)
    requires
        b.wf(),
    ensures
        b.char_inserted(c).deleted_before() == b,
{
    if c == '\n' {
        lemma_split_then_merge(b);
    } else {
        let cur = b.current_line();
        assert(cur.insert(b.cursor_col, c).remove(b.cursor_col) =~= cur);
        assert(b.char_inserted(c).deleted_before().lines =~= b.lines);
    }
}

/// Lines hold characters, not bytes: inserting a character lengthens the line
/// by one and moves the cursor by one column, deleting it moves the cursor
/// back by one column, and the two together change nothing.
pub proof fn lemma_insert_moves_one_char(b: BufferModel, c: char)
    requires
        b.wf(),
        c != '\n',
    ensures
        b.char_inserted(c).cursor_line == b.cursor_line,
        b.char_inserted(c).cursor_col == b.cursor_col + 1,
        b.char_inserted(c).current_line() == b.current_line().insert(b.cursor_col, c),
        b.char_inserted(c).current_line().len() == b.current_line().len() + 1,
        b.char_inserted(c).deleted_before().cursor_col == b.char_inserted(c).cursor_col - 1,
        b.char_inserted(c).deleted_before() == b,
{
    lemma_insert_then_backspace(b, c);
}

/// Moving left at the start of the document and moving right at the end of
/// its last line change nothing.
pub proof fn lemma_moves_stop_at_document_ends(b: BufferModel)
    requires
        b.wf(),
    ensures
        b.cursor_line == 0 && b.cursor_col == 0 ==> b.moved_left() == b,
        b.cursor_line == b.lines.len() - 1 && b.cursor_col == b.line_len(b.cursor_line)
            ==> b.moved_right() == b,
{
}

/// After the window is brought to a line, that line is inside it.
pub proof fn lemma_synced_window_shows_line(v: ViewportModel, line: int)
    requires
        v.wf(),
        line >= 0,
    ensures
        v.synced(line).shows(line),
        v.synced(line).wf(),
{
}

} // verus!
