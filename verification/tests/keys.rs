use todo_tui::{
    advance, handle_event, handle_key, Event, InteractionMode, KeyCode, KeyEvent, KeyEventKind,
    Message, Model, RunningState, TodoItem,
};

fn press(code: KeyCode) -> KeyEvent {
    KeyEvent { code, kind: KeyEventKind::Press }
}

fn list() -> Vec<TodoItem> {
    vec![
        TodoItem { content: "a".to_string(), done: false },
        TodoItem { content: "b".to_string(), done: false },
    ]
}

fn looking() -> Model {
    Model::initial(list())
}

fn writing(text: &str) -> Model {
    Model::new(
        list(),
        RunningState::Running,
        None,
        Some(text.to_string()),
        InteractionMode::Input,
    )
}

#[test]
fn arrows_walk_the_list() {
    assert_eq!(handle_key(press(KeyCode::Up), &looking()), Some(Message::PreviousItem));
    assert_eq!(handle_key(press(KeyCode::Down), &looking()), Some(Message::NextItem));
}

#[test]
fn j_and_k_walk_the_list_too() {
    assert_eq!(handle_key(press(KeyCode::Char('k')), &looking()), Some(Message::PreviousItem));
    assert_eq!(handle_key(press(KeyCode::Char('j')), &looking()), Some(Message::NextItem));
}

#[test]
fn letters_pick_commands_while_viewing() {
    assert_eq!(handle_key(press(KeyCode::Char('f')), &looking()), Some(Message::MarkDone));
    assert_eq!(handle_key(press(KeyCode::Char('u')), &looking()), Some(Message::MarkUndone));
    assert_eq!(handle_key(press(KeyCode::Char('d')), &looking()), Some(Message::DeleteItem));
    assert_eq!(handle_key(press(KeyCode::Char('n')), &looking()), Some(Message::InitAdd));
    assert_eq!(handle_key(press(KeyCode::Char('q')), &looking()), Some(Message::Quit));
}

#[test]
fn other_keys_mean_nothing_while_viewing() {
    assert_eq!(handle_key(press(KeyCode::Char('x')), &looking()), None);
    assert_eq!(handle_key(press(KeyCode::Char('F')), &looking()), None);
    assert_eq!(handle_key(press(KeyCode::Enter), &looking()), None);
    assert_eq!(handle_key(press(KeyCode::Esc), &looking()), None);
    assert_eq!(handle_key(press(KeyCode::Backspace), &looking()), None);
    assert_eq!(handle_key(press(KeyCode::Other), &looking()), None);
}

#[test]
fn characters_are_typed_while_writing() {
    assert_eq!(
        handle_key(press(KeyCode::Char('x')), &writing("ab")),
        Some(Message::AddChar("x".to_string()))
    );
    assert_eq!(
        handle_key(press(KeyCode::Char('q')), &writing("")),
        Some(Message::AddChar("q".to_string()))
    );
    assert_eq!(
        handle_key(press(KeyCode::Char('\u{e9}')), &writing("")),
        Some(Message::AddChar("\u{e9}".to_string()))
    );
}

#[test]
fn enter_submits_the_text_as_it_is() {
    assert_eq!(
        handle_key(press(KeyCode::Enter), &writing("buy milk")),
        Some(Message::AddItem("buy milk".to_string()))
    );
    assert_eq!(
        handle_key(press(KeyCode::Enter), &writing("")),
        Some(Message::AddItem(String::new()))
    );
}

#[test]
fn esc_and_backspace_while_writing() {
    assert_eq!(handle_key(press(KeyCode::Esc), &writing("ab")), Some(Message::CancelAdd));
    assert_eq!(handle_key(press(KeyCode::Backspace), &writing("ab")), Some(Message::RemoveChar));
}

#[test]
fn other_keys_mean_nothing_while_writing() {
    assert_eq!(handle_key(press(KeyCode::Up), &writing("ab")), None);
    assert_eq!(handle_key(press(KeyCode::Down), &writing("ab")), None);
    assert_eq!(handle_key(press(KeyCode::Other), &writing("ab")), None);
}

#[test]
fn only_pressed_keys_count() {
    let m = looking();
    let down = KeyCode::Down;
    assert_eq!(
        handle_event(&m, Some(Event::Key(KeyEvent { code: down, kind: KeyEventKind::Press }))),
        Some(Message::NextItem)
    );
    assert_eq!(
        handle_event(&m, Some(Event::Key(KeyEvent { code: down, kind: KeyEventKind::Repeat }))),
        None
    );
    assert_eq!(
        handle_event(&m, Some(Event::Key(KeyEvent { code: down, kind: KeyEventKind::Release }))),
        None
    );
}

#[test]
fn no_key_no_message() {
    assert_eq!(handle_event(&looking(), None), None);
    assert_eq!(handle_event(&looking(), Some(Event::Other)), None);
    assert_eq!(handle_event(&writing("a"), Some(Event::Other)), None);
}

#[test]
fn advance_applies_the_message_of_a_key() {
    let next = advance(looking(), Some(Event::Key(press(KeyCode::Down))));
    assert_eq!(next.current_entry, Some(0));
    assert_eq!(next.todo_list, list());
    let typed = advance(writing("ab"), Some(Event::Key(press(KeyCode::Char('c')))));
    assert_eq!(typed.entry_text, Some("abc".to_string()));
    let erased = advance(typed, Some(Event::Key(press(KeyCode::Backspace))));
    assert_eq!(erased.entry_text, Some("ab".to_string()));
}

#[test]
fn advance_without_a_message_keeps_the_state() {
    let idle = advance(writing("ab"), None);
    assert_eq!(idle.entry_text, Some("ab".to_string()));
    assert_eq!(idle.interaction_mode, InteractionMode::Input);
    assert_eq!(idle.todo_list, list());
    let other = advance(looking(), Some(Event::Key(press(KeyCode::Char('x')))));
    assert_eq!(other.current_entry, None);
    assert_eq!(other.running_state, RunningState::Running);
    let released = advance(
        looking(),
        Some(Event::Key(KeyEvent { code: KeyCode::Char('q'), kind: KeyEventKind::Release })),
    );
    assert_eq!(released.running_state, RunningState::Running);
}

#[test]
fn a_session_typed_on_the_keyboard() {
    let keys = vec![
        KeyCode::Char('n'),
        KeyCode::Char('h'),
        KeyCode::Char('i'),
        KeyCode::Char('!'),
        KeyCode::Backspace,
        KeyCode::Enter,
        KeyCode::Char('k'),
        KeyCode::Char('f'),
        KeyCode::Char('q'),
    ];
    let mut m = looking();
    for code in keys {
        m = advance(m, Some(Event::Key(press(code))));
    }
    assert_eq!(m.running_state, RunningState::Done);
    assert_eq!(m.todo_list.len(), 3);
    assert_eq!(m.todo_list[2], TodoItem { content: "hi".to_string(), done: true });
    assert_eq!(m.current_entry, None);
}
