//! What the ready-made steps of a wizard decide on a key.

use crate::runtime::keys::{KeyCode, KeyEvent};
use crate::wizard::framework::StepAction;
use vstd::prelude::*;
use vstd::string::*;

verus! {

/// Rows of a summary step that names no height.
pub const SUMMARY_DEFAULT_HEIGHT: u16 = 6;

/// Rows of a step with one input.
pub const INPUT_DEFAULT_HEIGHT: u16 = 3;

/// The rows of a summary step: those it names, six otherwise.
pub fn summary_content_height(height: Option<u16>) -> (rows: u16)
    ensures
        rows == match height {
            Some(h) => h,
            None => 6,
        },
{
    match height {
        Some(h) => h,
        None => SUMMARY_DEFAULT_HEIGHT,
    }
}

/// What a key does in a summary step whose own handler left it alone:
/// escape cancels, left or `h` goes back, enter saves.
pub open spec fn summary_default_action(key: KeyEvent) -> StepAction {
    match key.code {
        KeyCode::Esc => StepAction::Cancel,
        KeyCode::Left => StepAction::Previous,
        KeyCode::Char(c) => if c == 'h' {
            StepAction::Previous
        } else {
            StepAction::Continue
        },
        KeyCode::Enter => StepAction::Save,
        _ => StepAction::Continue,
    }
}

/// The action of a summary step on a key: what the step's own handler
/// answered, where it answered; else the default for the key.
pub fn summary_key_action(handled: Option<StepAction>, key: &KeyEvent) -> (action: StepAction)
    ensures
        action == match handled {
            Some(a) => a,
            None => summary_default_action(*key),
        },
{
    if let Some(a) = handled {
        return a;
    }
    match key.code {
        KeyCode::Esc => StepAction::Cancel,
        KeyCode::Left => StepAction::Previous,
        KeyCode::Char(c) => if c == 'h' {
            StepAction::Previous
        } else {
            StepAction::Continue
        },
        KeyCode::Enter => StepAction::Save,
        _ => StepAction::Continue,
    }
}

/// What a step with one text input does with a key.
#[derive(Debug, Clone, Copy, PartialEq, Eq, Structural)]
pub enum TextStepKey {
    /// Escape: the wizard is cancelled.
    Cancel,
    /// Enter: the text is stored and validated.
    Submit,
    /// Any other key goes to the input.
    Edit,
}

/// Sorts a key of a step with one text input.
pub fn text_step_key(key: &KeyEvent) -> (kind: TextStepKey)
    ensures
        kind == match key.code {
            KeyCode::Esc => TextStepKey::Cancel,
            KeyCode::Enter => TextStepKey::Submit,
            _ => TextStepKey::Edit,
        },
{
    match key.code {
        KeyCode::Esc => TextStepKey::Cancel,
        KeyCode::Enter => TextStepKey::Submit,
        _ => TextStepKey::Edit,
    }
}

/// What follows the validation of a submitted text: the error to show
/// (none for a valid text), and the action: the next step for a valid
/// text, the same step otherwise.
pub fn text_step_submit(validation: Result<(), String>) -> (r: (Option<String>, StepAction))
    ensures
        r == match validation {
            Ok(_) => (None::<String>, StepAction::Next),
            Err(e) => (Some(e), StepAction::Continue),
        },
{
    match validation {
        Ok(_) => (None, StepAction::Next),
        Err(e) => (Some(e), StepAction::Continue),
    }
}


/// The line below the input: a status with a check mark (`true`) or a
/// cross in front of it.
pub fn status_line(status: Result<String, String>) -> (line: (String, bool))
    ensures
        line.1 == status is Ok,
        status matches Ok(msg) ==> line.0@ == seq!['\u{2713}', ' '] + msg@,
        status matches Err(err) ==> line.0@ == seq!['\u{2717}', ' '] + err@,
{
    let mut text = String::new();
    match status {
        Ok(msg) => {
            text.push('\u{2713}');
            text.push(' ');
            text.append(msg.as_str());
            proof {
                assert(text@ =~= seq!['\u{2713}', ' '] + msg@);
            }
            (text, true)
        },
        Err(err) => {
            text.push('\u{2717}');
            text.push(' ');
            text.append(err.as_str());
            proof {
                assert(text@ =~= seq!['\u{2717}', ' '] + err@);
            }
            (text, false)
        },
    }
}

} // verus!
