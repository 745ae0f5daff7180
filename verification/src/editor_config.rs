//! Keybinding configuration: the keymap table the resolver scans, and the
//! built-in default configuration.
//!
//! Matching policy: an entry fires on an event only when the entry's key code
//! equals the event's key code *and* the entry's modifier equals the event's
//! modifier exactly; an entry's mode guard, when present, must additionally
//! hold of the current mode. An entry with no guard matches in any mode.

use vstd::prelude::*;

use crate::types::{when_holds, EditorCommand, KeyCode, KeyEvent, KeyModifiers, Mode, When};

verus! {

/// One keybinding: a key code plus modifier, an optional mode guard, and the
/// command to dispatch when the binding fires.
#[derive(Debug)]
pub struct Keymap {
    pub key: KeyCode,
    pub command: EditorCommand,
    pub modifiers: KeyModifiers,
    pub when: Option<When>,
}

/// Whether entry `k` fires on event `ev` while the editor is in `mode`:
/// exact key-code and modifier equality, and the guard (if any) holds.
pub open spec fn entry_matches(k: Keymap, mode: Mode, ev: KeyEvent) -> bool {
    &&& k.key == ev.key
    &&& k.modifiers == ev.modifiers
    &&& match k.when {
        Option::None => true,
        Option::Some(w) => when_holds(w, mode),
    }
}

/// The resolver's meaning: the first entry of `table`, in declared order,
/// that matches `ev` in `mode`; `None` when no entry matches. Declaration
/// order is the sole tie-break between overlapping entries.
pub open spec fn resolve(table: Seq<Keymap>, mode: Mode, ev: KeyEvent) -> Option<Keymap>
    decreases table.len(),
{
    if table.len() == 0 {
        Option::None
    } else if entry_matches(table[0], mode, ev) {
        Option::Some(table[0])
    } else {
        resolve(table.drop_first(), mode, ev)
    }
}

/// Law: declaration order is the sole tie-break. If entry `i` matches and no
/// earlier entry does — however many later entries also match — resolution
/// picks exactly entry `i`.
pub proof fn lemma_resolve_picks_first_match(table: Seq<Keymap>, mode: Mode, ev: KeyEvent, i: int)
    requires
        0 <= i < table.len(),
        entry_matches(table[i], mode, ev),
        forall|j: int| 0 <= j < i ==> !entry_matches(table[j], mode, ev),
    ensures
        resolve(table, mode, ev) == Option::Some(table[i]),
    decreases i,
{
    if i > 0 {
        assert(!entry_matches(table[0], mode, ev));
        assert forall|j: int| 0 <= j < i - 1 implies !entry_matches(
            table.drop_first()[j],
            mode,
            ev,
        ) by {
            assert(table.drop_first()[j] == table[j + 1]);
        }
        assert(table.drop_first()[i - 1] == table[i]);
        lemma_resolve_picks_first_match(table.drop_first(), mode, ev, i - 1);
    }
}

/// Law: resolution is total and honest about failure — when no entry
/// matches, it yields nothing rather than some default.
pub proof fn lemma_resolve_none_when_no_match(table: Seq<Keymap>, mode: Mode, ev: KeyEvent)
    requires
        forall|j: int| 0 <= j < table.len() ==> !entry_matches(table[j], mode, ev),
    ensures
        resolve(table, mode, ev) is None,
    decreases table.len(),
{
    if table.len() > 0 {
        assert forall|j: int| 0 <= j < table.drop_first().len() implies !entry_matches(
            table.drop_first()[j],
            mode,
            ev,
        ) by {
            assert(table.drop_first()[j] == table[j + 1]);
        }
        lemma_resolve_none_when_no_match(table.drop_first(), mode, ev);
    }
}

/// An ordered keymap table. Loaded once before the run loop starts and read
/// only by the resolver.
#[derive(Debug)]
pub struct EditorConfig {
    pub keymaps: Vec<Keymap>,
}

impl EditorConfig {
    /// The built-in configuration: control-q quits, in every mode.
    pub fn new() -> (config: EditorConfig)
        ensures
            config.keymaps@.len() == 1,
            config.keymaps@[0] == (Keymap {
                key: KeyCode::Char('q'),
                command: EditorCommand::Quit,
                modifiers: KeyModifiers::CONTROL,
                when: Option::None,
            }),
    {
        let mut keymaps: Vec<Keymap> = Vec::new();
        keymaps.push(Keymap {
            key: KeyCode::Char('q'),
            command: EditorCommand::Quit,
            modifiers: KeyModifiers::CONTROL,
            when: None,
        });
        EditorConfig { keymaps }
    }
}

} // verus!
