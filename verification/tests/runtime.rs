use std::collections::VecDeque;

use nodecode_terminal_kit::runtime::command::{enqueue_command, Command};
use nodecode_terminal_kit::runtime::config::ExitKeys;
use nodecode_terminal_kit::runtime::keys::{KeyCode, KeyEvent, KeyModifiers};
use nodecode_terminal_kit::runtime::program::should_exit_key;

#[test]
fn batch_command_preserves_insertion_order() {
    let mut pending = VecDeque::new();
    let operations: Vec<fn() -> i32> = vec![|| 1, || 2, || 3];
    enqueue_command(Command::batch(operations), &mut pending);

    let drained: Vec<i32> = pending.into_iter().collect();
    assert_eq!(drained, vec![1, 2, 3]);
}

#[test]
fn default_exit_keys_match_expected_shortcuts() {
    let keys = ExitKeys::default();

    assert!(should_exit_key(
        &KeyEvent::new(KeyCode::Esc, KeyModifiers::none()),
        &keys
    ));
    assert!(should_exit_key(
        &KeyEvent::new(KeyCode::Char('q'), KeyModifiers::none()),
        &keys
    ));
    assert!(should_exit_key(
        &KeyEvent::new(KeyCode::Char('c'), KeyModifiers::control()),
        &keys
    ));
    assert!(!should_exit_key(
        &KeyEvent::new(KeyCode::Char('q'), KeyModifiers::shift()),
        &keys
    ));

    let no_q = ExitKeys {
        esc: true,
        q: false,
        ctrl_c: true,
    };
    assert!(!should_exit_key(
        &KeyEvent::new(KeyCode::Char('q'), KeyModifiers::none()),
        &no_q
    ));
}

#[test]
fn one_command_appends_behind_what_is_pending() {
    let mut pending: VecDeque<i32> = VecDeque::new();
    pending.push_back(7);
    let operation: fn() -> i32 = || 9;
    enqueue_command(Command::one(operation), &mut pending);
    assert_eq!(pending.into_iter().collect::<Vec<i32>>(), vec![7, 9]);
}

#[test]
fn empty_command_leaves_the_queue_alone() {
    let mut pending: VecDeque<i32> = VecDeque::new();
    pending.push_back(7);
    enqueue_command(Command::<i32, fn() -> i32>::none(), &mut pending);
    assert_eq!(pending.into_iter().collect::<Vec<i32>>(), vec![7]);
}

#[test]
fn other_keys_do_not_end_the_program() {
    let keys = ExitKeys::default();
    assert!(!should_exit_key(
        &KeyEvent::new(KeyCode::Enter, KeyModifiers::none()),
        &keys
    ));
    assert!(!should_exit_key(
        &KeyEvent::new(KeyCode::Char('c'), KeyModifiers::none()),
        &keys
    ));
    assert!(!should_exit_key(
        &KeyEvent::new(KeyCode::Char('x'), KeyModifiers::control()),
        &keys
    ));
}
