//! Decisions of the program loop.

use crate::runtime::config::ExitKeys;
use crate::runtime::keys::{KeyCode, KeyEvent};
use vstd::prelude::*;

verus! {

/// Whether `key` ends the program: escape, a plain `q`, or `c` with
/// control, each as far as `exit_keys` allows it.
pub open spec fn ends_program(key: KeyEvent, exit_keys: ExitKeys) -> bool {
    match key.code {
        KeyCode::Esc => exit_keys.esc,
        KeyCode::Char(c) => if c == 'q'
            && key.modifiers == crate::runtime::keys::KeyModifiers::spec_none() {
            exit_keys.q
        } else if c == 'c' && key.modifiers.control {
            exit_keys.ctrl_c
        } else {
            false
        },
        _ => false,
    }
}

/// Whether the program ends on `key`.
pub fn should_exit_key(key: &KeyEvent, exit_keys: &ExitKeys) -> (exit: bool)
    ensures
        exit == ends_program(*key, *exit_keys),
{
    match key.code {
        KeyCode::Esc => exit_keys.esc,
        KeyCode::Char(c) => {
            if c == 'q' && key.modifiers.is_empty() {
                exit_keys.q
            } else if c == 'c' && key.modifiers.control {
                exit_keys.ctrl_c
            } else {
                false
            }
        },
        _ => false,
    }
}

} // verus!
