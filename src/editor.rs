use vstd::prelude::*;

use crate::buffer::{BufferModel, TextBuffer};
use crate::viewport::{Viewport, ViewportModel};

verus! {

/// Whether typing inserts text or is meant to replace it; only the flag is
/// kept, typing always inserts.
#[derive(Debug, Clone, Copy, PartialEq, Eq, Structural)]
pub enum WritingMode {
    Insert,
    Overwrite,
}

/// The modifier keys held with a key press.
#[derive(Debug, Clone, Copy, PartialEq, Eq, Structural)]
pub struct ModifierState {
    pub shift: bool,
    pub ctrl: bool,
    pub alt: bool,
    /// The Command key on macOS, the Windows key on Windows.
    pub meta: bool,
}

/// A decoded key press.
#[derive(Debug, Clone, Copy, PartialEq, Eq, Structural)]
pub enum Key {
    /// No key arrived in time.
    Null,
    Left,
    Right,
    Up,
    Down,
    Enter,
    Esc,
    Backspace,
    Home,
    End,
    Tab,
    BackTab,
    Delete,
    Insert,
    PageUp,
    PageDown,
    Char(char),
    /// Any other key; it is ignored.
    Other,
}

/// What the caller does after a key was handled.
#[derive(Debug, Clone, Copy, PartialEq, Eq, Structural)]
pub enum Action {
    /// Nothing happened: wait for the next key.
    Idle,
    /// The state may have changed: redraw.
    Redraw,
    /// Leave the editor.
    Exit,
}

/// Number of Esc presses in a row that are still ignored; one more exits.
pub const MAX_ESC_PRESSES: u8 = 5;

/// Abstract state of an [`Editor`].
pub struct EditorModel {
    pub buffer: BufferModel,
    pub viewport: ViewportModel,
    pub writing_mode: WritingMode,
    pub exit_count: int,
    pub modifiers: ModifierState,
}

/// The buffer edit that `key` with `m` held performs; `height` is the page
/// size.
pub open spec fn key_edit(b: BufferModel, key: Key, m: ModifierState, height: int) -> BufferModel {
    match key {
        Key::Left => if m.shift && !m.ctrl {
            b.char_left_selected()
        } else if m.shift && m.ctrl {
            b.word_left_selected()
        } else {
            b.moved_left()
        },
        Key::Right => if m.shift && !m.ctrl {
            b.char_right_selected()
        } else if m.shift && m.ctrl {
            b.word_right_selected()
        } else {
            b.moved_right()
        },
        Key::Up => b.moved_up(),
        Key::Down => b.moved_down(),
        Key::Enter => b.newline_inserted(),
        Key::Backspace => b.deleted_before(),
        Key::Home => b.moved_to_line_start(),
        Key::End => b.moved_to_line_end(),
        Key::Tab => b.char_inserted('\t'),
        Key::Delete => b.deleted_at(),
        Key::PageUp => moved_up_times(b, height),
        Key::PageDown => moved_down_times(b, height),
        Key::Char(c) => if m.ctrl {
            if c == 'v' {
                b.pasted()
            } else if c == 'c' || c == 'x' || c == 'a' || c == 'z' {
                b
            } else {
                b.char_inserted(c)
            }
        } else {
            b.char_inserted(c)
        },
        _ => b,
    }
}

/// The scrolling that `key` performs by itself, before the window is brought
/// to the cursor; `b` is the buffer after the edit.
pub open spec fn key_scroll(v: ViewportModel, key: Key, b: BufferModel) -> ViewportModel {
    match key {
        Key::Up => if b.cursor_line < v.first {
            v.scrolled_up()
        } else {
            v
        },
        Key::Down | Key::Enter => if b.cursor_line > v.first + v.height - 1 {
            v.scrolled_down(b.lines.len() as int)
        } else {
            v
        },
        Key::PageUp => v.paged_up(),
        Key::PageDown => v.paged_down(b.lines.len() as int),
        _ => v,
    }
}

pub open spec fn moved_up_times(b: BufferModel, n: int) -> BufferModel
    decreases n,
{
    if n <= 0 {
        b
    } else {
        moved_up_times(b, n - 1).moved_up()
    }
}

pub open spec fn moved_down_times(b: BufferModel, n: int) -> BufferModel
    decreases n,
{
    if n <= 0 {
        b
    } else {
        moved_down_times(b, n - 1).moved_down()
    }
}

impl EditorModel {
    /// Well-formedness: buffer and window are well formed, the window shows
    /// the cursor's line, and the Esc count is below the exit threshold.
    pub open spec fn wf(self) -> bool {
        &&& self.buffer.wf()
        &&& self.viewport.wf()
        &&& self.viewport.shows(self.buffer.cursor_line)
        &&& 0 <= self.exit_count <= MAX_ESC_PRESSES
    }

    pub open spec fn action_for(self, key: Key) -> Action {
        if key == Key::Null {
            Action::Idle
        } else if key == Key::Esc && self.exit_count + 1 > MAX_ESC_PRESSES {
            Action::Exit
        } else {
            Action::Redraw
        }
    }

    /// The state after `key` with `m` held: the edit, the key's own scrolling,
    /// then the window brought to the cursor. A missing key changes nothing,
    /// and the Esc press that exits only counts.
    pub open spec fn after_key(self, key: Key, m: ModifierState) -> EditorModel {
        if key == Key::Null {
            self
        } else {
            let b = key_edit(self.buffer, key, m, self.viewport.height);
            let exit_count = if key == Key::Esc {
                self.exit_count + 1
            } else {
                0
            };
            let mode = if key == Key::Insert {
                match self.writing_mode {
                    WritingMode::Insert => WritingMode::Overwrite,
                    WritingMode::Overwrite => WritingMode::Insert,
                }
            } else {
                self.writing_mode
            };
            let v = if self.action_for(key) == Action::Exit {
                self.viewport
            } else {
                key_scroll(self.viewport, key, b).synced(b.cursor_line)
            };
            EditorModel {
                buffer: b,
                viewport: v,
                writing_mode: mode,
                exit_count: if exit_count > MAX_ESC_PRESSES {
                    MAX_ESC_PRESSES as int
                } else {
                    exit_count
                },
                modifiers: m,
            }
        }
    }
}

/// The text buffer and its window, driven one key press at a time.
pub struct Editor {
    buffer: TextBuffer,
    viewport: Viewport,
    writing_mode: WritingMode,
    exit_count: u8,
    modifiers: ModifierState,
}

impl View for Editor {
    type V = EditorModel;

    closed spec fn view(&self) -> EditorModel {
        EditorModel {
            buffer: self.buffer@,
            viewport: self.viewport@,
            writing_mode: self.writing_mode,
            exit_count: self.exit_count as int,
            modifiers: self.modifiers,
        }
    }
}

impl Editor {
    /// An empty buffer in insert mode, shown in a window of `viewport_height`
    /// lines.
    pub fn new(viewport_height: usize) -> (r: Editor)
        requires
            viewport_height > 0,
        ensures
            r@.buffer == TextBuffer::new_model(),
            r@.viewport == (ViewportModel { first: 0, height: viewport_height as int }),
            r@.writing_mode == WritingMode::Insert,
            r@.exit_count == 0,
            r@.wf(),
    {
        Editor {
            buffer: TextBuffer::new(),
            viewport: Viewport::new(viewport_height),
            writing_mode: WritingMode::Insert,
            exit_count: 0,
            modifiers: ModifierState { shift: false, ctrl: false, alt: false, meta: false },
        }
    }

    pub fn buffer(&self) -> (r: &TextBuffer)
        ensures
            r@ == self@.buffer,
    {
        &self.buffer
    }

    pub fn viewport(&self) -> (r: &Viewport)
        ensures
            r@ == self@.viewport,
    {
        &self.viewport
    }

    pub fn writing_mode(&self) -> (r: WritingMode)
        ensures
            r == self@.writing_mode,
    {
        self.writing_mode
    }

    /// Moves the cursor up by one window height, line by line.
    fn cursor_page_up(&mut self)
        requires
            old(self)@.buffer.wf(),
        ensures
            final(self)@ == (EditorModel {
                buffer: moved_up_times(old(self)@.buffer, old(self)@.viewport.height),
                ..old(self)@
            }),
            final(self)@.buffer.wf(),
    {
        let h = self.viewport.get_viewport_height();
        let mut i: usize = 0;
        while i < h
            invariant
                i <= h,
                h == self@.viewport.height,
                self@.buffer.wf(),
                self@ == (EditorModel {
                    buffer: moved_up_times(old(self)@.buffer, i as int),
                    ..old(self)@
                }),
            decreases h - i,
        {
            self.buffer.move_cursor_up();
            i += 1;
        }
    }

    /// Moves the cursor down by one window height, line by line.
    fn cursor_page_down(&mut self)
        requires
            old(self)@.buffer.wf(),
        ensures
            final(self)@ == (EditorModel {
                buffer: moved_down_times(old(self)@.buffer, old(self)@.viewport.height),
                ..old(self)@
            }),
            final(self)@.buffer.wf(),
    {
        let h = self.viewport.get_viewport_height();
        let mut i: usize = 0;
        while i < h
            invariant
                i <= h,
                h == self@.viewport.height,
                self@.buffer.wf(),
                self@ == (EditorModel {
                    buffer: moved_down_times(old(self)@.buffer, i as int),
                    ..old(self)@
                }),
            decreases h - i,
        {
            self.buffer.move_cursor_down();
            i += 1;
        }
    }

    /// Handles one key press: edits the buffer, scrolls, and brings the window
    /// to the cursor (see `EditorModel::after_key`).
    pub fn handle_key(&mut self, key: Key, modifiers: ModifierState) -> (r: Action)
        requires
            old(self)@.wf(),
        ensures
            r == old(self)@.action_for(key),
            final(self)@ == old(self)@.after_key(key, modifiers),
            final(self)@.wf(),
    {
        if key == Key::Null {
            return Action::Idle;
        }
        self.modifiers = modifiers;
        if key != Key::Esc {
            self.exit_count = 0;
        }
        let shift = modifiers.shift;
        let ctrl = modifiers.ctrl;
        match key {
            Key::Left => {
                if shift && !ctrl {
                    self.buffer.select_char_left();
                } else if shift && ctrl {
                    self.buffer.select_word_left();
                } else {
                    self.buffer.move_cursor_left();
                }
            },
            Key::Right => {
                if shift && !ctrl {
                    self.buffer.select_char_right();
                } else if shift && ctrl {
                    self.buffer.select_word_right();
                } else {
                    self.buffer.move_cursor_right();
                }
            },
            Key::Up => {
                if shift {
                    self.buffer.select_line_up();
                } else {
                    self.buffer.move_cursor_up();
                }
                if self.buffer.get_cursor_line() < self.viewport.get_viewport_start() {
                    self.viewport.scroll_up();
                }
            },
            Key::Down => {
                if shift {
                    self.buffer.select_line_down();
                } else {
                    self.buffer.move_cursor_down();
                }
                self.scroll_down_past_cursor();
            },
            Key::Enter => {
                self.buffer.insert_newline();
                self.scroll_down_past_cursor();
            },
            Key::Esc => {
                self.exit_count = self.exit_count + 1;
                if self.exit_count > MAX_ESC_PRESSES {
                    self.exit_count = MAX_ESC_PRESSES;
                    return Action::Exit;
                }
            },
            Key::Backspace => {
                self.buffer.delete_char_before_cursor();
            },
            Key::Home => {
                self.buffer.move_cursor_to_beginning_of_line();
            },
            Key::End => {
                self.buffer.move_cursor_to_end_of_line();
            },
            Key::Tab => {
                self.buffer.insert_char('\t');
            },
            Key::Delete => {
                self.buffer.delete_char_at_cursor();
            },
            Key::Insert => {
                self.writing_mode = match self.writing_mode {
                    WritingMode::Insert => WritingMode::Overwrite,
                    WritingMode::Overwrite => WritingMode::Insert,
                };
            },
            Key::PageUp => {
                self.cursor_page_up();
                self.viewport.page_up();
            },
            Key::PageDown => {
                self.cursor_page_down();
                let total = self.buffer.get_line_count();
                self.viewport.page_down(total);
            },
            Key::Char(c) => {
                if ctrl {
                    if c == 'v' {
                        self.buffer.paste();
                    } else if c == 'c' {
                        self.buffer.copy_selected_text();
                    } else if c == 'x' {
                        self.buffer.cut_selected_text();
                    } else if c == 'a' {
                        self.buffer.select_all();
                    } else if c == 'z' {
                        if shift {
                            self.buffer.redo();
                        } else {
                            self.buffer.undo();
                        }
                    } else {
                        self.buffer.insert_char(c);
                    }
                } else {
                    self.buffer.insert_char(c);
                }
            },
            _ => {},
        }
        let line = self.buffer.get_cursor_line();
        self.viewport.ensure_cursor_visible(line);
        Action::Redraw
    }

    /// Scrolls one line down when the cursor went below the window.
    fn scroll_down_past_cursor(&mut self)
        requires
            old(self)@.viewport.wf(),
        ensures
            final(self)@ == (EditorModel {
                viewport: if old(self)@.buffer.cursor_line > old(self)@.viewport.first
                    + old(self)@.viewport.height - 1 {
                    old(self)@.viewport.scrolled_down(old(self)@.buffer.lines.len() as int)
                } else {
                    old(self)@.viewport
                },
                ..old(self)@
            }),
            final(self)@.viewport.wf(),
    {
        let line = self.buffer.get_cursor_line();
        let start = self.viewport.get_viewport_start();
        if line >= start && line - start >= self.viewport.get_viewport_height() {
            let total = self.buffer.get_line_count();
            self.viewport.scroll_down(total);
        }
    }
}

} // verus!
