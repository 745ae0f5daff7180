//! The editor core: the document buffer (a non-empty sequence of lines), the
//! cursor, the active mode, the edit primitives, the keymap resolver, and the
//! command dispatcher.
//!
//! The mathematical model is `EditorState`: the document as a sequence of
//! character sequences plus cursor position and mode. Every executable
//! operation's contract says exactly which `EditorState` it produces, via the
//! transition functions below, so that laws about edit sequences (invariant
//! preservation, no-ops at the document edges, split/merge round trips) can
//! be stated and proved once, over the model.

use vstd::prelude::*;

use crate::editor_config::{entry_matches, resolve, EditorConfig, Keymap};
use crate::types::{when_holds, Cursor, CursorStyle, EditorCommand, KeyCode, KeyEvent, Mode, When};

verus! {

/// The model of the whole editor core: document lines, cursor, mode.
#[verifier::ext_equal]
pub ghost struct EditorState {
    pub doc: Seq<Seq<char>>,
    pub cursor_row: int,
    pub cursor_col: int,
    pub mode: Mode,
}

/// The core's invariant: the document always has at least one line, the
/// cursor row addresses an existing line, and the cursor column lies within
/// that line, the slot just past its last character included.
pub open spec fn state_inv(s: EditorState) -> bool {
    &&& s.doc.len() >= 1
    &&& 0 <= s.cursor_row < s.doc.len()
    &&& 0 <= s.cursor_col <= s.doc[s.cursor_row].len()
}

/// Whether `cur` addresses a valid edit position in `s`.
pub open spec fn cursor_in_bounds(s: EditorState, cur: Cursor) -> bool {
    &&& cur.row < s.doc.len()
    &&& cur.col <= s.doc[cur.row as int].len()
}

/// The position an edit primitive works at: the explicit cursor when one is
/// given, the editor's own cursor otherwise.
pub open spec fn target_of(s: EditorState, cursor: Option<Cursor>) -> (int, int) {
    match cursor {
        Option::Some(cur) => (cur.row as int, cur.col as int),
        Option::None => (s.cursor_row, s.cursor_col),
    }
}

/// Inserting `c` before column `col` on line `row`; the cursor moves to just
/// after the inserted character.
pub open spec fn insert_char_at(s: EditorState, row: int, col: int, c: char) -> EditorState {
    EditorState {
        doc: s.doc.update(row, s.doc[row].insert(col, c)),
        cursor_row: row,
        cursor_col: col + 1,
        ..s
    }
}

/// Splitting line `row` at column `col`: the text before the split stays on
/// `row`, the rest becomes a new line right after it, and the cursor moves
/// to the start of that new line.
pub open spec fn insert_line_at(s: EditorState, row: int, col: int) -> EditorState {
    let line = s.doc[row];
    EditorState {
        doc: s.doc.update(row, line.subrange(0, col)).insert(
            row + 1,
            line.subrange(col, line.len() as int),
        ),
        cursor_row: row + 1,
        cursor_col: 0,
        ..s
    }
}

/// Deleting forward at `(row, col)`: removes the character at `col` when one
/// is there; at end-of-line, merges the next line onto this one; at the very
/// end of the document, does nothing. The cursor never moves.
pub open spec fn delete_forward_at(s: EditorState, row: int, col: int) -> EditorState {
    if col < s.doc[row].len() {
        EditorState { doc: s.doc.update(row, s.doc[row].remove(col)), ..s }
    } else if row + 1 < s.doc.len() {
        EditorState { doc: s.doc.update(row, s.doc[row] + s.doc[row + 1]).remove(row + 1), ..s }
    } else {
        s
    }
}

/// Deleting backward at `(row, col)`: removes the character before `col` and
/// steps the cursor left; at the start of a line, merges this line onto the
/// previous one and puts the cursor at the join; at the start of the
/// document, does nothing.
pub open spec fn delete_backward_at(s: EditorState, row: int, col: int) -> EditorState {
    if col > 0 {
        EditorState {
            doc: s.doc.update(row, s.doc[row].remove(col - 1)),
            cursor_row: row,
            cursor_col: col - 1,
            ..s
        }
    } else if row > 0 {
        EditorState {
            doc: s.doc.update(row - 1, s.doc[row - 1] + s.doc[row]).remove(row),
            cursor_row: row - 1,
            cursor_col: s.doc[row - 1].len() as int,
            ..s
        }
    } else {
        s
    }
}

/// What the caller of the dispatcher must do next. The core never touches
/// the terminal, so presentation changes and shutdown come back as values.
#[derive(Clone, Copy, Debug, PartialEq, Eq, Structural)]
pub enum EditorAction {
    /// Nothing beyond the state change already applied.
    Continue,
    /// The mode changed; show this cursor style on the terminal.
    SetCursorStyle(CursorStyle),
    /// Orderly shutdown was requested: tear the terminal down and exit.
    Quit,
}

/// A dispatch failure. Reserved commands are reported, never silently
/// swallowed, so "no-op by design" stays distinguishable from "missing
/// feature".
#[derive(Clone, Copy, Debug, PartialEq, Eq, Structural)]
pub enum EditorError {
    NotImplemented(EditorCommand),
}

/// Moving up one line, clamping the column to the target line's length.
/// At the first line this is a no-op.
pub open spec fn move_cursor_up(s: EditorState) -> EditorState {
    if s.cursor_row > 0 {
        let row = s.cursor_row - 1;
        let len = s.doc[row].len() as int;
        EditorState {
            cursor_row: row,
            cursor_col: if s.cursor_col < len { s.cursor_col } else { len },
            ..s
        }
    } else {
        s
    }
}

/// Moving down one line, clamping the column to the target line's length.
/// At the last line this is a no-op.
pub open spec fn move_cursor_down(s: EditorState) -> EditorState {
    if s.cursor_row + 1 < s.doc.len() {
        let row = s.cursor_row + 1;
        let len = s.doc[row].len() as int;
        EditorState {
            cursor_row: row,
            cursor_col: if s.cursor_col < len { s.cursor_col } else { len },
            ..s
        }
    } else {
        s
    }
}

/// Moving left one column, saturating at the start of the line.
pub open spec fn move_cursor_left(s: EditorState) -> EditorState {
    if s.cursor_col > 0 {
        EditorState { cursor_col: s.cursor_col - 1, ..s }
    } else {
        s
    }
}

/// Moving right one column, saturating at the end of the line.
pub open spec fn move_cursor_right(s: EditorState) -> EditorState {
    if s.cursor_col < s.doc[s.cursor_row].len() {
        EditorState { cursor_col: s.cursor_col + 1, ..s }
    } else {
        s
    }
}

/// Whether the dispatcher implements `cmd`. The others are reserved members
/// of the command set and leave the state untouched when dispatched.
pub open spec fn is_implemented(cmd: EditorCommand) -> bool {
    match cmd {
        EditorCommand::InsertChar(_) => true,
        EditorCommand::InsertLine => true,
        EditorCommand::DeleteChar => true,
        EditorCommand::BackspaceChar => true,
        EditorCommand::MoveCursorUp => true,
        EditorCommand::MoveCursorDown => true,
        EditorCommand::MoveCursorLeft => true,
        EditorCommand::MoveCursorRight => true,
        EditorCommand::Mode(_) => true,
        EditorCommand::Quit => true,
        _ => false,
    }
}

/// The state the dispatcher leaves the core in after `cmd`. Edits apply at
/// the editor's own cursor; `Quit` and the reserved commands change nothing.
pub open spec fn step(s: EditorState, cmd: EditorCommand) -> EditorState {
    match cmd {
        EditorCommand::InsertChar(c) => insert_char_at(s, s.cursor_row, s.cursor_col, c),
        EditorCommand::InsertLine => insert_line_at(s, s.cursor_row, s.cursor_col),
        EditorCommand::DeleteChar => delete_forward_at(s, s.cursor_row, s.cursor_col),
        EditorCommand::BackspaceChar => delete_backward_at(s, s.cursor_row, s.cursor_col),
        EditorCommand::MoveCursorUp => move_cursor_up(s),
        EditorCommand::MoveCursorDown => move_cursor_down(s),
        EditorCommand::MoveCursorLeft => move_cursor_left(s),
        EditorCommand::MoveCursorRight => move_cursor_right(s),
        EditorCommand::Mode(m) => EditorState { mode: m, ..s },
        _ => s,
    }
}

/// What the dispatcher answers for `cmd`: the follow-up action on success,
/// or the not-implemented report for a reserved command.
pub open spec fn step_action(s: EditorState, cmd: EditorCommand) -> Result<
    EditorAction,
    EditorError,
> {
    match cmd {
        EditorCommand::Mode(m) => Result::Ok(EditorAction::SetCursorStyle(style_for(m))),
        EditorCommand::Quit => Result::Ok(EditorAction::Quit),
        _ => if is_implemented(cmd) {
            Result::Ok(EditorAction::Continue)
        } else {
            Result::Err(EditorError::NotImplemented(cmd))
        },
    }
}

/// The editor core. Owns the document, the cursor, and the active mode; the
/// terminal layer and the keymap configuration live outside and interact
/// with it only through the methods below.
pub struct Editor {
    pub mode: Mode,
    pub cursor: Cursor,
    pub doc: Vec<Vec<char>>,
}

impl View for Editor {
    type V = EditorState;

    open spec fn view(&self) -> EditorState {
        EditorState {
            doc: Seq::new(self.doc@.len(), |i: int| self.doc@[i]@),
            cursor_row: self.cursor.row as int,
            cursor_col: self.cursor.col as int,
            mode: self.mode,
        }
    }
}

impl Editor {
    /// The core's invariant, at the executable type.
    pub open spec fn wf(&self) -> bool {
        state_inv(self@)
    }

    /// A fresh editor: one empty line, cursor at the origin, insert mode.
    pub fn new() -> (editor: Editor)
        ensures
            editor.wf(),
            editor@.doc =~= seq![Seq::<char>::empty()],
            editor@.cursor_row == 0,
            editor@.cursor_col == 0,
            editor@.mode == Mode::Insert,
    {
        let mut doc: Vec<Vec<char>> = Vec::new();
        doc.push(Vec::new());
        let editor = Editor { mode: Mode::Insert, cursor: Cursor { col: 0, row: 0 }, doc };
        proof {
            assert(editor@.doc =~= seq![Seq::<char>::empty()]);
        }
        editor
    }

    /// Inserts `c` at the given position (the editor's cursor when `cursor`
    /// is `None`). Always valid given an in-bounds position.
    pub fn insert_char(&mut self, c: char, cursor: Option<Cursor>)
        requires
            old(self).wf(),
            cursor matches Some(cur) ==> cursor_in_bounds(old(self)@, cur),
        ensures
            ({
                let (row, col) = target_of(old(self)@, cursor);
                final(self)@ == insert_char_at(old(self)@, row, col, c)
            }),
            final(self).wf(),
    {
        let at = match cursor {
            Some(cur) => cur,
            None => self.cursor,
        };
        self.doc[at.row].insert(at.col, c);
        // The line now holds at least at.col + 1 characters and its length is
        // a usize, so the new column cannot overflow.
        let new_len = self.doc[at.row].len();
        assert(at.col < new_len);
        self.cursor = Cursor { row: at.row, col: at.col + 1 };
        proof {
            let (row, col) = target_of(old(self)@, cursor);
            assert(self@.doc =~= insert_char_at(old(self)@, row, col, c).doc);
        }
    }

    /// Splits the line at the given position in two; the text at and after
    /// the split becomes a new line right below, and the cursor moves to the
    /// start of that new line.
    pub fn insert_line(&mut self, cursor: Option<Cursor>)
        requires
            old(self).wf(),
            cursor matches Some(cur) ==> cursor_in_bounds(old(self)@, cur),
        ensures
            ({
                let (row, col) = target_of(old(self)@, cursor);
                final(self)@ == insert_line_at(old(self)@, row, col)
            }),
            final(self).wf(),
    {
        let at = match cursor {
            Some(cur) => cur,
            None => self.cursor,
        };
        let rest = self.doc[at.row].split_off(at.col);
        // at.row indexes the document, whose length is a usize, so the new
        // row index cannot overflow.
        let line_count = self.doc.len();
        assert(at.row < line_count);
        self.doc.insert(at.row + 1, rest);
        self.cursor = Cursor { row: at.row + 1, col: 0 };
        proof {
            let (row, col) = target_of(old(self)@, cursor);
            assert(self@.doc =~= insert_line_at(old(self)@, row, col).doc);
        }
    }

    /// Deletes forward at the given position: the character under the cursor
    /// when there is one, otherwise the line break (merging the next line up).
    /// At the very end of the document this is a no-op. The cursor stays put.
    pub fn delete_char(&mut self, cursor: Option<Cursor>)
        requires
            old(self).wf(),
            cursor matches Some(cur) ==> cursor_in_bounds(old(self)@, cur),
        ensures
            ({
                let (row, col) = target_of(old(self)@, cursor);
                final(self)@ == delete_forward_at(old(self)@, row, col)
            }),
            cursor is None ==> final(self).wf(),
    {
        let at = match cursor {
            Some(cur) => cur,
            None => self.cursor,
        };
        if at.col < self.doc[at.row].len() {
            self.doc[at.row].remove(at.col);
            proof {
                let (row, col) = target_of(old(self)@, cursor);
                assert(self@.doc =~= delete_forward_at(old(self)@, row, col).doc);
            }
        } else {
            let line_count = self.doc.len();
            if at.row + 1 < line_count {
                let mut next = self.doc.remove(at.row + 1);
                self.doc[at.row].append(&mut next);
                proof {
                    let (row, col) = target_of(old(self)@, cursor);
                    assert(self@.doc =~= delete_forward_at(old(self)@, row, col).doc);
                }
            }
        }
    }

    /// Deletes backward at the given position: the character before the
    /// cursor when there is one, otherwise the line break above (merging this
    /// line onto the previous one, cursor landing at the join). At the start
    /// of the document this is a no-op.
    pub fn backspace_char(&mut self, cursor: Option<Cursor>)
        requires
            old(self).wf(),
            cursor matches Some(cur) ==> cursor_in_bounds(old(self)@, cur),
        ensures
            ({
                let (row, col) = target_of(old(self)@, cursor);
                final(self)@ == delete_backward_at(old(self)@, row, col)
            }),
            final(self).wf(),
    {
        let at = match cursor {
            Some(cur) => cur,
            None => self.cursor,
        };
        if at.col > 0 {
            self.doc[at.row].remove(at.col - 1);
            self.cursor = Cursor { row: at.row, col: at.col - 1 };
            proof {
                let (row, col) = target_of(old(self)@, cursor);
                assert(self@.doc =~= delete_backward_at(old(self)@, row, col).doc);
            }
        } else if at.row > 0 {
            let mut line = self.doc.remove(at.row);
            let prev_len = self.doc[at.row - 1].len();
            self.doc[at.row - 1].append(&mut line);
            self.cursor = Cursor { row: at.row - 1, col: prev_len };
            proof {
                let (row, col) = target_of(old(self)@, cursor);
                assert(self@.doc =~= delete_backward_at(old(self)@, row, col).doc);
            }
        }
    }

    /// Switches the active mode and hands back the cursor presentation style
    /// the terminal must now show: a bar for insert, a block for normal, an
    /// underscore for visual. The caller applies the style; the core never
    /// touches the terminal itself.
    pub fn change_mode(&mut self, mode: Mode) -> (style: CursorStyle)
        ensures
            final(self)@ == (EditorState { mode: mode, ..old(self)@ }),
            style == style_for(mode),
    {
        let style = match mode {
            Mode::Insert => CursorStyle::SteadyBar,
            Mode::Normal => CursorStyle::SteadyBlock,
            Mode::Visual => CursorStyle::SteadyUnderScore,
        };
        self.mode = mode;
        proof {
            assert(self@ =~~= (EditorState { mode: mode, ..old(self)@ }));
        }
        style
    }

    /// Executes one command against the core, total over the command set:
    /// edits and moves apply at the current cursor, `Mode` switches the mode
    /// and reports the style to show, `Quit` asks the caller to shut down,
    /// and a reserved command is reported as not implemented, the state left
    /// untouched.
    pub fn execute_command(&mut self, command: EditorCommand) -> (r: Result<
        EditorAction,
        EditorError,
    >)
        requires
            old(self).wf(),
        ensures
            final(self)@ == step(old(self)@, command),
            r == step_action(old(self)@, command),
            final(self).wf(),
    {
        match command {
            EditorCommand::InsertChar(c) => {
                self.insert_char(c, None);
                Ok(EditorAction::Continue)
            },
            EditorCommand::InsertLine => {
                self.insert_line(None);
                Ok(EditorAction::Continue)
            },
            EditorCommand::DeleteChar => {
                self.delete_char(None);
                Ok(EditorAction::Continue)
            },
            EditorCommand::BackspaceChar => {
                self.backspace_char(None);
                Ok(EditorAction::Continue)
            },
            EditorCommand::MoveCursorUp => {
                if self.cursor.row > 0 {
                    let row = self.cursor.row - 1;
                    let len = self.doc[row].len();
                    let col = if self.cursor.col < len {
                        self.cursor.col
                    } else {
                        len
                    };
                    self.cursor = Cursor { row, col };
                }
                proof {
                    assert(self@ =~~= move_cursor_up(old(self)@));
                }
                Ok(EditorAction::Continue)
            },
            EditorCommand::MoveCursorDown => {
                let line_count = self.doc.len();
                if self.cursor.row + 1 < line_count {
                    let row = self.cursor.row + 1;
                    let len = self.doc[row].len();
                    let col = if self.cursor.col < len {
                        self.cursor.col
                    } else {
                        len
                    };
                    self.cursor = Cursor { row, col };
                }
                proof {
                    assert(self@ =~~= move_cursor_down(old(self)@));
                }
                Ok(EditorAction::Continue)
            },
            EditorCommand::MoveCursorLeft => {
                if self.cursor.col > 0 {
                    self.cursor = Cursor { row: self.cursor.row, col: self.cursor.col - 1 };
                }
                proof {
                    assert(self@ =~~= move_cursor_left(old(self)@));
                }
                Ok(EditorAction::Continue)
            },
            EditorCommand::MoveCursorRight => {
                let len = self.doc[self.cursor.row].len();
                if self.cursor.col < len {
                    self.cursor = Cursor { row: self.cursor.row, col: self.cursor.col + 1 };
                }
                proof {
                    assert(self@ =~~= move_cursor_right(old(self)@));
                }
                Ok(EditorAction::Continue)
            },
            EditorCommand::Mode(m) => {
                let style = self.change_mode(m);
                Ok(EditorAction::SetCursorStyle(style))
            },
            EditorCommand::Quit => Ok(EditorAction::Quit),
            _ => Err(EditorError::NotImplemented(command)),
        }
    }

    /// Whether a binding's guard (if any) lets it fire in the current mode.
    pub fn matches_mode(&self, when: &Option<When>) -> (r: bool)
        ensures
            r == match when {
                Option::None => true,
                Option::Some(w) => when_holds(*w, self.mode),
            },
    {
        match when {
            None => true,
            Some(condition) => condition.evaluate(self.mode),
        }
    }

    /// Whether one binding fires on the event in the current mode: exact key
    /// code and modifier equality, plus the guard.
    pub fn matches_keymap(&self, keymap: &Keymap, key_event: &KeyEvent) -> (r: bool)
        ensures
            r == entry_matches(*keymap, self.mode, *key_event),
    {
        keymap.key == key_event.key && keymap.modifiers == key_event.modifiers
            && self.matches_mode(&keymap.when)
    }

    /// Scans the configured bindings in declared order and returns the first
    /// one that fires on the event in the current mode. Declaration order is
    /// the sole tie-break between overlapping bindings.
    pub fn find_matching_keymap<'a>(&self, config: &'a EditorConfig, key_event: &KeyEvent) -> (r:
        Option<&'a Keymap>)
        ensures
            match r {
                Option::Some(k) => resolve(config.keymaps@, self.mode, *key_event)
                    == Option::Some(*k),
                Option::None => resolve(config.keymaps@, self.mode, *key_event) is None,
            },
    {
        let mut i: usize = 0;
        proof {
            assert(config.keymaps@.skip(0) =~= config.keymaps@);
        }
        while i < config.keymaps.len()
            invariant
                i <= config.keymaps@.len(),
                resolve(config.keymaps@, self.mode, *key_event) == resolve(
                    config.keymaps@.skip(i as int),
                    self.mode,
                    *key_event,
                ),
            decreases config.keymaps@.len() - i,
        {
            if self.matches_keymap(&config.keymaps[i], key_event) {
                proof {
                    assert(config.keymaps@.skip(i as int)[0] == config.keymaps@[i as int]);
                }
                return Some(&config.keymaps[i]);
            }
            proof {
                assert(config.keymaps@.skip(i as int)[0] == config.keymaps@[i as int]);
                assert(config.keymaps@.skip(i as int).drop_first() =~= config.keymaps@.skip(
                    i as int + 1,
                ));
            }
            i = i + 1;
        }
        proof {
            assert(config.keymaps@.skip(i as int) =~= Seq::<Keymap>::empty());
        }
        None
    }

    /// The built-in fallback for an event no binding captured: in insert
    /// mode, a character key inserts its character; any other key, and any
    /// key in normal or visual mode, changes nothing.
    pub fn handle_unmapped_key(&mut self, key_event: &KeyEvent)
        requires
            old(self).wf(),
        ensures
            final(self)@ == match fallback_command(old(self)@.mode, *key_event) {
                Option::Some(cmd) => step(old(self)@, cmd),
                Option::None => old(self)@,
            },
            final(self).wf(),
    {
        match key_event.key {
            KeyCode::Char(ch) => {
                if let Mode::Insert = self.mode {
                    let _ = self.execute_command(EditorCommand::InsertChar(ch));
                }
            },
            _ => {},
        }
    }

    /// Handles one key event end to end: resolves it against the bindings
    /// and the current mode, dispatches the resolved command, and falls back
    /// to the default behaviour when nothing matched. This is the one entry
    /// point the run loop calls per event.
    pub fn handle_event(&mut self, config: &EditorConfig, event: &KeyEvent) -> (r: Result<
        EditorAction,
        EditorError,
    >)
        requires
            old(self).wf(),
        ensures
            final(self)@ == handle_key(old(self)@, config.keymaps@, *event),
            r == handle_key_action(old(self)@, config.keymaps@, *event),
            final(self).wf(),
    {
        let command = match self.find_matching_keymap(config, event) {
            Some(keymap) => Some(keymap.command),
            None => None,
        };
        match command {
            Some(cmd) => self.execute_command(cmd),
            None => {
                self.handle_unmapped_key(event);
                Ok(EditorAction::Continue)
            },
        }
    }
}

/// The implicit command behind an unmatched key event: insert-character for
/// a character key in insert mode, nothing otherwise. Only bindings look at
/// modifiers; once no binding has matched, a character key falls back to
/// insertion whatever modifier it carries.
pub open spec fn fallback_command(mode: Mode, ev: KeyEvent) -> Option<EditorCommand> {
    match ev.key {
        KeyCode::Char(c) => if mode == Mode::Insert {
            Option::Some(EditorCommand::InsertChar(c))
        } else {
            Option::None
        },
        _ => Option::None,
    }
}

/// The state one key event leaves the core in: the first matching binding's
/// command applies, or the fallback when no binding matches.
pub open spec fn handle_key(s: EditorState, table: Seq<Keymap>, ev: KeyEvent) -> EditorState {
    match resolve(table, s.mode, ev) {
        Option::Some(k) => step(s, k.command),
        Option::None => match fallback_command(s.mode, ev) {
            Option::Some(cmd) => step(s, cmd),
            Option::None => s,
        },
    }
}

/// The answer one key event produces: the dispatched command's answer, or
/// plain continuation when no binding matched (the fallback never fails).
pub open spec fn handle_key_action(s: EditorState, table: Seq<Keymap>, ev: KeyEvent) -> Result<
    EditorAction,
    EditorError,
> {
    match resolve(table, s.mode, ev) {
        Option::Some(k) => step_action(s, k.command),
        Option::None => Result::Ok(EditorAction::Continue),
    }
}

/// Law: every command preserves the core's invariant — after any dispatch
/// the document is non-empty, the cursor row addresses a line, and the
/// cursor column lies within that line. With `Editor::new` establishing the
/// invariant, every reachable state satisfies it.
pub proof fn lemma_step_preserves_inv(s: EditorState, cmd: EditorCommand)
    requires
        state_inv(s),
    ensures
        state_inv(step(s, cmd)),
{
}

/// Law: handling any key event, through bindings or fallback, preserves the
/// core's invariant.
pub proof fn lemma_handle_key_preserves_inv(s: EditorState, table: Seq<Keymap>, ev: KeyEvent)
    requires
        state_inv(s),
    ensures
        state_inv(handle_key(s, table, ev)),
{
    match resolve(table, s.mode, ev) {
        Option::Some(k) => lemma_step_preserves_inv(s, k.command),
        Option::None => match fallback_command(s.mode, ev) {
            Option::Some(cmd) => lemma_step_preserves_inv(s, cmd),
            Option::None => {},
        },
    }
}

/// Law: deleting forward at the very end of the document — last line, column
/// at the line's length — changes nothing.
pub proof fn lemma_delete_forward_at_end_noop(s: EditorState)
    requires
        state_inv(s),
        s.cursor_row == s.doc.len() - 1,
        s.cursor_col == s.doc[s.cursor_row].len(),
    ensures
        step(s, EditorCommand::DeleteChar) == s,
{
}

/// Law: deleting backward at the very start of the document — first line,
/// first column — changes nothing.
pub proof fn lemma_delete_backward_at_origin_noop(s: EditorState)
    requires
        state_inv(s),
        s.cursor_row == 0,
        s.cursor_col == 0,
    ensures
        step(s, EditorCommand::BackspaceChar) == s,
{
}

/// Law: a line break inserted at the cursor and immediately deleted
/// backward — the cursor then standing at the start of the new line —
/// restores the original document and cursor position exactly.
pub proof fn lemma_insert_line_round_trip(s: EditorState)
    requires
        state_inv(s),
    ensures
        step(step(s, EditorCommand::InsertLine), EditorCommand::BackspaceChar) == s,
{
    let s1 = step(s, EditorCommand::InsertLine);
    let s2 = step(s1, EditorCommand::BackspaceChar);
    assert(s1.doc[s.cursor_row] + s1.doc[s.cursor_row + 1] =~= s.doc[s.cursor_row]);
    assert(s2.doc =~~= s.doc);
    assert(s2 =~~= s);
}

/// Law: when no binding matches, the fallback mutates nothing unless the
/// editor is in insert mode and the key is a plain character — in normal or
/// visual mode, and for every non-character key, an unmatched event leaves
/// the whole state untouched.
pub proof fn lemma_unmatched_key_no_insert_noop(s: EditorState, table: Seq<Keymap>, ev: KeyEvent)
    requires
        resolve(table, s.mode, ev) is None,
        s.mode != Mode::Insert || !(ev.key matches KeyCode::Char(_)),
    ensures
        handle_key(s, table, ev) == s,
{
}

/// The cursor presentation that belongs to each mode.
pub open spec fn style_for(mode: Mode) -> CursorStyle {
    match mode {
        Mode::Insert => CursorStyle::SteadyBar,
        Mode::Normal => CursorStyle::SteadyBlock,
        Mode::Visual => CursorStyle::SteadyUnderScore,
    }
}

} // verus!

