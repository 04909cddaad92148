//! Raw-mode line editor. One editing turn consumes decoded keystrokes and
//! produces a committed line, with cursor editing and history browsing.
//!
//! The editor owns a scratch copy of the history: while browsing, edits land
//! in the copy and are discarded unless committed, and the in-progress line
//! is kept aside so stepping back down restores it.

use vstd::prelude::*;
use crate::history::CommandHistory;
use crate::text::chars_string;
use crate::text::str_chars;

verus! {

/// A keystroke after decoding: the keys the shell reacts to, with control
/// chords resolved, plus `Other` for everything it ignores.
#[derive(Clone, Copy, PartialEq, Eq, Structural, Debug)]
pub enum Key {
    Esc,
    Enter,
    Backspace,
    Delete,
    Tab,
    Up,
    Down,
    Left,
    Right,
    CtrlC,
    CtrlD,
    Char(char),
    Other,
}

/// What an editing turn does after one keystroke.
#[derive(Clone, Copy, PartialEq, Eq, Structural, Debug)]
pub enum EditorOutcome {
    /// Keep editing.
    Pending,
    /// Enter: the active buffer is the committed line.
    Committed,
    /// Escape: abort the turn and act as if `exit` had been entered.
    Escaped,
    /// Ctrl-C: abort the turn with nothing entered.
    Interrupted,
}

/// The visual effect a keystroke asks of the terminal, column-relative
/// against the prompt; the shell around the editor renders it.
#[derive(Clone, Copy, PartialEq, Eq, Structural, Debug)]
pub enum Redraw {
    /// Nothing changed (ignored key, or a move clamped at a boundary).
    Unchanged,
    /// Backspace: step the cursor left, then redraw the suffix from the new
    /// column and clear what follows it.
    EraseBefore,
    /// Delete: redraw the suffix from the current column in place.
    EraseAt,
    /// History navigation: redraw the whole line after the prompt.
    ReplaceLine,
    CursorLeft,
    CursorRight,
    /// Print the inserted character, then redraw the tail beyond it.
    InsertChar,
    /// Enter or Escape: break the line.
    EndLine,
    /// Ctrl-C: mark the interrupt and break the line.
    InterruptLine,
}

/// The editor's state, mathematically: the in-progress live line, the
/// scratch copy of the history, the history browse position (`cursor ==
/// entries.len()` is the live line) and the insertion column within the
/// active buffer.
pub struct EditorModel {
    pub live: Seq<char>,
    pub entries: Seq<Seq<char>>,
    pub cursor: int,
    pub column: int,
}

impl EditorModel {
    /// The buffer edits apply to: a history entry while browsing, else the
    /// live line.
    pub open spec fn active(self) -> Seq<char> {
        if self.cursor == self.entries.len() {
            self.live
        } else {
            self.entries[self.cursor]
        }
    }

    /// The same state with the active buffer replaced.
    pub open spec fn replace_active(self, b: Seq<char>) -> Self {
        if self.cursor == self.entries.len() {
            EditorModel { live: b, ..self }
        } else {
            EditorModel { entries: self.entries.update(self.cursor, b), ..self }
        }
    }

    pub open spec fn wf(self) -> bool {
        &&& 0 <= self.cursor <= self.entries.len()
        &&& 0 <= self.column <= self.active().len()
    }
}

/// The editor state after one keystroke.
pub open spec fn step(m: EditorModel, k: Key) -> EditorModel {
    match k {
        Key::Backspace => if m.column == 0 {
            m
        } else {
            EditorModel { column: m.column - 1, ..m.replace_active(m.active().remove(m.column - 1)) }
        },
        Key::Delete => if m.column == m.active().len() {
            m
        } else {
            m.replace_active(m.active().remove(m.column))
        },
        Key::Left => if m.column == 0 {
            m
        } else {
            EditorModel { column: m.column - 1, ..m }
        },
        Key::Right => if m.column == m.active().len() {
            m
        } else {
            EditorModel { column: m.column + 1, ..m }
        },
        Key::Up => if m.cursor == 0 {
            m
        } else {
            EditorModel {
                cursor: m.cursor - 1,
                column: m.entries[m.cursor - 1].len() as int,
                ..m
            }
        },
        Key::Down => if m.cursor == m.entries.len() {
            m
        } else {
            EditorModel {
                cursor: m.cursor + 1,
                column: if m.cursor + 1 == m.entries.len() {
                    m.live.len() as int
                } else {
                    m.entries[m.cursor + 1].len() as int
                },
                ..m
            }
        },
        Key::Char(c) => EditorModel {
            column: m.column + 1,
            ..m.replace_active(m.active().insert(m.column, c))
        },
        _ => m,
    }
}

/// How one keystroke ends or continues the editing turn.
pub open spec fn step_outcome(k: Key) -> EditorOutcome {
    match k {
        Key::Esc => EditorOutcome::Escaped,
        Key::Enter => EditorOutcome::Committed,
        Key::CtrlC => EditorOutcome::Interrupted,
        _ => EditorOutcome::Pending,
    }
}

/// The visual effect of one keystroke.
pub open spec fn step_redraw(m: EditorModel, k: Key) -> Redraw {
    match k {
        Key::Esc => Redraw::EndLine,
        Key::Enter => Redraw::EndLine,
        Key::CtrlC => Redraw::InterruptLine,
        Key::Backspace => if m.column == 0 {
            Redraw::Unchanged
        } else {
            Redraw::EraseBefore
        },
        Key::Delete => if m.column == m.active().len() {
            Redraw::Unchanged
        } else {
            Redraw::EraseAt
        },
        Key::Left => if m.column == 0 {
            Redraw::Unchanged
        } else {
            Redraw::CursorLeft
        },
        Key::Right => if m.column == m.active().len() {
            Redraw::Unchanged
        } else {
            Redraw::CursorRight
        },
        Key::Up => if m.cursor == 0 {
            Redraw::Unchanged
        } else {
            Redraw::ReplaceLine
        },
        Key::Down => if m.cursor == m.entries.len() {
            Redraw::Unchanged
        } else {
            Redraw::ReplaceLine
        },
        Key::Char(_) => Redraw::InsertChar,
        _ => Redraw::Unchanged,
    }
}

/// The buffers of `s`, each as its character sequence.
pub open spec fn entries_view(s: Seq<Vec<char>>) -> Seq<Seq<char>> {
    Seq::new(s.len(), |i: int| s[i]@)
}

pub struct LineEditor {
    live: Vec<char>,
    entries: Vec<Vec<char>>,
    cursor: usize,
    column: usize,
}

impl LineEditor {
    pub closed spec fn model(&self) -> EditorModel {
        EditorModel {
            live: self.live@,
            entries: entries_view(self.entries@),
            cursor: self.cursor as int,
            column: self.column as int,
        }
    }

    /// A fresh editing turn over a scratch copy of the history, starting on
    /// an empty live line.
    pub fn new(history: &CommandHistory) -> (r: Self)
        ensures
            r.model().wf(),
            r.model().live == Seq::<char>::empty(),
            r.model().entries == history@,
            r.model().cursor == history@.len(),
            r.model().column == 0,
    {
        let n = history.len();
        let mut entries: Vec<Vec<char>> = Vec::new();
        let mut i: usize = 0;
        while i < n
            invariant
                n == history@.len(),
                i <= n,
                entries@.len() == i as int,
                forall|j: int| 0 <= j < i ==> entries@[j]@ == history@[j],
            decreases n - i,
        {
            match history.get(i) {
                Some(line) => {
                    entries.push(str_chars(line.as_str()));
                },
                None => {},
            }
            i = i + 1;
        }
        let r = Self { live: Vec::new(), entries, cursor: n, column: 0 };
        proof {
            assert(r.model().entries =~= history@);
        }
        r
    }

    pub fn column(&self) -> (r: usize)
        ensures
            r == self.model().column,
    {
        self.column
    }

    /// The active buffer — the committed line once the turn ends with
    /// `Committed`.
    pub fn current_line(&self) -> (r: String)
        requires
            self.model().wf(),
        ensures
            r@ == self.model().active(),
    {
        if self.cursor == self.entries.len() {
            chars_string(&self.live)
        } else {
            chars_string(&self.entries[self.cursor])
        }
    }

    fn active_len(&self) -> (r: usize)
        requires
            0 <= self.model().cursor <= self.model().entries.len(),
        ensures
            r == self.model().active().len(),
    {
        if self.cursor == self.entries.len() {
            self.live.len()
        } else {
            self.entries[self.cursor].len()
        }
    }

    fn active_remove(&mut self, at: usize)
        requires
            old(self).model().wf(),
            at < old(self).model().active().len(),
        ensures
            final(self).model() == old(self).model().replace_active(
                old(self).model().active().remove(at as int),
            ),
    {
        if self.cursor == self.entries.len() {
            self.live.remove(at);
        } else {
            let e = &mut self.entries[self.cursor];
            e.remove(at);
            proof {
                assert(self.model().entries =~= old(self).model().entries.update(
                    old(self).cursor as int,
                    old(self).model().active().remove(at as int),
                ));
            }
        }
    }

    fn active_insert(&mut self, at: usize, c: char)
        requires
            old(self).model().wf(),
            at <= old(self).model().active().len(),
        ensures
            final(self).model() == old(self).model().replace_active(
                old(self).model().active().insert(at as int, c),
            ),
    {
        if self.cursor == self.entries.len() {
            self.live.insert(at, c);
        } else {
            let e = &mut self.entries[self.cursor];
            e.insert(at, c);
            proof {
                assert(self.model().entries =~= old(self).model().entries.update(
                    old(self).cursor as int,
                    old(self).model().active().insert(at as int, c),
                ));
            }
        }
    }

    /// Applies one keystroke: edits the active buffer, moves the cursor or
    /// browses the history, and reports how the turn proceeds and what to
    /// redraw.
    pub fn handle_key(&mut self, key: Key) -> (r: (EditorOutcome, Redraw))
        requires
            old(self).model().wf(),
        ensures
            final(self).model() == step(old(self).model(), key),
            final(self).model().wf(),
            r.0 == step_outcome(key),
            r.1 == step_redraw(old(self).model(), key),
    {
        match key {
            Key::Esc => (EditorOutcome::Escaped, Redraw::EndLine),
            Key::Enter => (EditorOutcome::Committed, Redraw::EndLine),
            Key::CtrlC => (EditorOutcome::Interrupted, Redraw::InterruptLine),
            Key::Backspace => {
                if self.column == 0 {
                    (EditorOutcome::Pending, Redraw::Unchanged)
                } else {
                    self.column = self.column - 1;
                    let col = self.column;
                    self.active_remove(col);
                    (EditorOutcome::Pending, Redraw::EraseBefore)
                }
            },
            Key::Delete => {
                if self.column == self.active_len() {
                    (EditorOutcome::Pending, Redraw::Unchanged)
                } else {
                    let col = self.column;
                    self.active_remove(col);
                    (EditorOutcome::Pending, Redraw::EraseAt)
                }
            },
            Key::Left => {
                if self.column == 0 {
                    (EditorOutcome::Pending, Redraw::Unchanged)
                } else {
                    self.column = self.column - 1;
                    (EditorOutcome::Pending, Redraw::CursorLeft)
                }
            },
            Key::Right => {
                if self.column == self.active_len() {
                    (EditorOutcome::Pending, Redraw::Unchanged)
                } else {
                    self.column = self.column + 1;
                    (EditorOutcome::Pending, Redraw::CursorRight)
                }
            },
            Key::Up => {
                if self.cursor == 0 {
                    (EditorOutcome::Pending, Redraw::Unchanged)
                } else {
                    self.cursor = self.cursor - 1;
                    self.column = self.active_len();
                    (EditorOutcome::Pending, Redraw::ReplaceLine)
                }
            },
            Key::Down => {
                if self.cursor == self.entries.len() {
                    (EditorOutcome::Pending, Redraw::Unchanged)
                } else {
                    self.cursor = self.cursor + 1;
                    self.column = self.active_len();
                    (EditorOutcome::Pending, Redraw::ReplaceLine)
                }
            },
            Key::Char(c) => {
                let col = self.column;
                self.active_insert(col, c);
                let grown = self.active_len();
                self.column = if col < grown {
                    col + 1
                } else {
                    grown
                };
                (EditorOutcome::Pending, Redraw::InsertChar)
            },
            Key::Tab => (EditorOutcome::Pending, Redraw::Unchanged),
            Key::CtrlD => (EditorOutcome::Pending, Redraw::Unchanged),
            Key::Other => (EditorOutcome::Pending, Redraw::Unchanged),
        }
    }
}

/// From the live line with a nonempty history, one Up then one Down restores
/// the in-progress buffer exactly, back on the live line with the column at
/// the buffer's end.
pub proof fn lemma_up_down_restores_buffer(m: EditorModel)
    requires
        m.wf(),
        m.cursor == m.entries.len(),
        m.entries.len() > 0,
    ensures
        ({
            let after = step(step(m, Key::Up), Key::Down);
            &&& after.active() == m.active()
            &&& after.cursor == m.cursor
            &&& after.column == m.active().len()
        }),
{
}

/// When the column stood at the end of the in-progress buffer — as it does
/// right after typing — Up then Down restores the whole editor state
/// exactly, column included.
pub proof fn lemma_up_down_restores_state(m: EditorModel)
    requires
        m.wf(),
        m.cursor == m.entries.len(),
        m.entries.len() > 0,
        m.column == m.active().len(),
    ensures
        step(step(m, Key::Up), Key::Down) == m,
{
}

} // verus!
