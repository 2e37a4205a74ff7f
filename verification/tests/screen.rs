use todo_tui::{view, Area, Dialog, InteractionMode, Model, RunningState, TodoItem};

fn entries() -> Vec<TodoItem> {
    vec![
        TodoItem { content: "wash".to_string(), done: false },
        TodoItem { content: "cook".to_string(), done: true },
    ]
}

#[test]
fn list_fills_the_frame() {
    let screen = view(&Model::initial(entries()), 80, 24);
    assert_eq!(screen.labels, vec!["wash".to_string(), "cook".to_string()]);
    assert_eq!(screen.selected, None);
    assert_eq!(screen.list_area, Area { x: 0, y: 0, width: 80, height: 24 });
    assert_eq!(screen.dialog, None);
}

#[test]
fn cursor_is_highlighted() {
    let m = Model::new(entries(), RunningState::Running, Some(1), None, InteractionMode::Viewing);
    let screen = view(&m, 80, 24);
    assert_eq!(screen.selected, Some(1));
    assert_eq!(screen.dialog, None);
}

#[test]
fn dialog_shows_the_pending_text() {
    let m = Model::new(
        entries(),
        RunningState::Running,
        Some(0),
        Some("iron".to_string()),
        InteractionMode::Input,
    );
    let screen = view(&m, 80, 24);
    assert_eq!(screen.labels, vec!["wash".to_string(), "cook".to_string()]);
    assert_eq!(screen.selected, Some(0));
    assert_eq!(
        screen.dialog,
        Some(Dialog {
            text: "iron".to_string(),
            area: Area { x: 26, y: 8, width: 26, height: 4 },
        })
    );
}

#[test]
fn dialog_on_a_tiny_frame() {
    let m = Model::new(
        Vec::new(),
        RunningState::Running,
        None,
        Some(String::new()),
        InteractionMode::Input,
    );
    let screen = view(&m, 2, 5);
    assert!(screen.labels.is_empty());
    assert_eq!(
        screen.dialog,
        Some(Dialog { text: String::new(), area: Area { x: 0, y: 1, width: 0, height: 0 } })
    );
}

#[test]
fn frame_of_exactly_the_most_cells_is_kept() {
    let screen = view(&Model::initial(entries()), 255, 257);
    assert_eq!(screen.list_area, Area { x: 0, y: 0, width: 255, height: 257 });
}

#[test]
fn frame_of_too_many_cells_is_cut_down() {
    let m = Model::new(
        entries(),
        RunningState::Running,
        None,
        Some("x".to_string()),
        InteractionMode::Input,
    );
    let square = view(&m, 300, 300);
    assert_eq!(square.list_area, Area { x: 0, y: 0, width: 255, height: 255 });
    assert_eq!(
        square.dialog,
        Some(Dialog { text: "x".to_string(), area: Area { x: 100, y: 100, width: 100, height: 50 } })
    );
    let flat = view(&m, 400, 200);
    assert_eq!(flat.list_area, Area { x: 0, y: 0, width: 362, height: 181 });
    assert_eq!(
        flat.dialog,
        Some(Dialog { text: "x".to_string(), area: Area { x: 133, y: 66, width: 133, height: 33 } })
    );
    let huge = view(&m, 65535, 65535);
    assert_eq!(huge.list_area, Area { x: 0, y: 0, width: 255, height: 255 });
    assert_eq!(
        huge.dialog,
        Some(Dialog {
            text: "x".to_string(),
            area: Area { x: 21845, y: 21845, width: 362, height: 181 },
        })
    );
}

#[test]
fn no_dialog_without_text_or_outside_input_mode() {
    let no_text = Model::new(entries(), RunningState::Running, None, None, InteractionMode::Input);
    assert_eq!(view(&no_text, 80, 24).dialog, None);
    let stray = Model::new(
        entries(),
        RunningState::Running,
        None,
        Some("x".to_string()),
        InteractionMode::Viewing,
    );
    assert_eq!(view(&stray, 80, 24).dialog, None);
}

#[test]
fn same_state_same_frame() {
    let m = Model::new(
        entries(),
        RunningState::Running,
        Some(1),
        Some("x".to_string()),
        InteractionMode::Input,
    );
    assert_eq!(view(&m, 100, 30), view(&m, 100, 30));
}
