//! Input-event and command vocabulary of the editor core: modes, cursor
//! positions, key events, editing commands, and the mode-guard expressions
//! used by keymap entries.

use vstd::prelude::*;

verus! {

/// The editing mode the core is in. Exactly one mode is active at a time;
/// it changes only through an explicit mode-change command.
#[derive(Clone, Copy, Debug, PartialEq, Eq, Structural)]
pub enum Mode {
    Normal,
    Insert,
    Visual,
}

/// An edit position: `row` indexes a line of the document, `col` a position
/// within that line. `col` may equal the line's length, addressing the slot
/// just past the last character (valid for insertion and append).
#[derive(Clone, Copy, Debug, PartialEq, Eq, Structural)]
pub struct Cursor {
    pub col: usize,
    pub row: usize,
}

/// A terminal cursor presentation style. Requested from the terminal layer
/// on every mode change; the core only picks the style, it never draws.
#[derive(Clone, Copy, Debug, PartialEq, Eq, Structural)]
pub enum CursorStyle {
    /// Default cursor shape configured by the user.
    DefaultUserShape,
    /// A blinking block cursor shape.
    BlinkingBlock,
    /// A non-blinking block cursor shape.
    SteadyBlock,
    /// A blinking underscore cursor shape.
    BlinkingUnderScore,
    /// A non-blinking underscore cursor shape.
    SteadyUnderScore,
    /// A blinking cursor bar shape.
    BlinkingBar,
    /// A steady cursor bar shape.
    SteadyBar,
}

/// The closed set of operations the dispatcher accepts. A command is a plain
/// value; some carry a payload (the character to insert, the target mode).
/// The save/open/find/undo/redo members and the long-range cursor moves are
/// reserved: dispatching one of them is reported as not implemented rather
/// than silently ignored.
#[derive(Clone, Copy, Debug, PartialEq, Eq, Structural)]
pub enum EditorCommand {
    InsertChar(char),
    InsertLine,
    DeleteChar,
    BackspaceChar,
    MoveCursorLeft,
    MoveCursorRight,
    MoveCursorUp,
    MoveCursorDown,
    MoveCursorStart,
    MoveCursorEnd,
    MoveCursorPageUp,
    MoveCursorPageDown,
    Quit,
    Save,
    Open,
    Find,
    FindNext,
    FindPrev,
    Undo,
    Redo,
    Mode(Mode),
}

/// A key modifier. Modifiers are mutually exclusive in this model: an event
/// carries exactly one of these, with `NONE` standing for "no modifier held".
#[allow(non_camel_case_types)]
#[derive(Clone, Copy, Debug, PartialEq, Eq, Structural)]
pub enum KeyModifiers {
    SHIFT,
    CONTROL,
    ALT,
    SUPER,
    HYPER,
    META,
    NONE,
}

/// A key code: a printable character, a function key by index, or a named
/// key. `Null` stands for a raw event that carried no key at all.
#[derive(Clone, Copy, Debug, PartialEq, Eq, Structural)]
pub enum KeyCode {
    Char(char),
    F(u8),
    Enter,
    Backspace,
    Delete,
    ArrowUp,
    ArrowDown,
    ArrowLeft,
    ArrowRight,
    CapsLock,
    ScrollLock,
    NumLock,
    PageUp,
    PageDown,
    PrintScreen,
    Pause,
    Menu,
    Home,
    End,
    Tab,
    Escape,
    Insert,
    Null,
}

/// An input event: a key code plus its modifier. Produced by the terminal
/// layer, consumed once by keymap resolution.
#[derive(Clone, Copy, Debug, PartialEq, Eq, Structural)]
pub struct KeyEvent {
    pub key: KeyCode,
    pub modifiers: KeyModifiers,
}

/// An event delivered to the editor core by the input source.
#[derive(Clone, Copy, Debug, PartialEq, Eq, Structural)]
pub enum EditorEvent {
    Key(KeyEvent),
}

/// A mode-guard expression attached to a keymap entry: a boolean formula
/// over the current mode, built from mode equality, negation, conjunction
/// and disjunction.
#[derive(Debug)]
pub enum When {
    ModeIs(Mode),
    Not(Box<When>),
    And(Box<When>, Box<When>),
    Or(Box<When>, Box<When>),
}

/// The meaning of a mode-guard expression: whether `w` holds of `mode`.
pub open spec fn when_holds(w: When, mode: Mode) -> bool
    decreases w,
{
    match w {
        When::ModeIs(m) => m == mode,
        When::Not(inner) => !when_holds(*inner, mode),
        When::And(a, b) => when_holds(*a, mode) && when_holds(*b, mode),
        When::Or(a, b) => when_holds(*a, mode) || when_holds(*b, mode),
    }
}

impl When {
    /// Evaluates this guard against the given mode.
    pub fn evaluate(&self, mode: Mode) -> (r: bool)
        ensures
            r == when_holds(*self, mode),
        decreases *self,
    {
        match self {
            When::ModeIs(m) => *m == mode,
            When::Not(inner) => !inner.evaluate(mode),
            When::And(a, b) => a.evaluate(mode) && b.evaluate(mode),
            When::Or(a, b) => a.evaluate(mode) || b.evaluate(mode),
        }
    }
}

} // verus!
