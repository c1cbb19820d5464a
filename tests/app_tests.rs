use oxitodo::app::{adjust_selection, App, AppMode};
use oxitodo::keys::{KeyCode, KeyEvent, KeyEventKind, MOD_CONTROL, MOD_SHIFT};
use oxitodo::todo::TodoItem;

fn item(id: usize, text: &str) -> TodoItem {
    TodoItem::new(id, text.to_string())
}

fn app_with(texts: &[&str]) -> App {
    let todos = texts.iter().enumerate().map(|(i, t)| item(i + 1, t)).collect();
    App::new("todos.json".to_string(), todos)
}

fn press(app: &mut App, code: KeyCode) -> bool {
    app.handle_key_event(KeyEvent::press(code))
}

fn type_text(app: &mut App, text: &str) {
    for c in text.chars() {
        press(app, KeyCode::Char(c));
    }
}

fn texts(app: &App) -> Vec<String> {
    app.todos.iter().map(|t| t.text.clone()).collect()
}

#[test]
fn new_item_starts_open_and_toggles() {
    let mut t = item(7, "read");
    assert_eq!(t.id, 7);
    assert!(!t.is_completed());
    t.toggle_completion();
    assert!(t.is_completed());
    t.toggle_completion();
    assert!(!t.is_completed());
}

#[test]
fn new_app_selects_first_and_counts_ids_on() {
    let app = App::new("f".to_string(), vec![item(3, "a"), item(9, "b"), item(4, "c")]);
    assert_eq!(app.selected, Some(0));
    assert_eq!(app.mode, AppMode::Normal);
    assert!(!app.should_quit);
    assert_eq!(app.next_id, 10);
    assert_eq!(app.data_file, "f");
    let empty = app_with(&[]);
    assert_eq!(empty.selected, None);
    assert_eq!(empty.next_id, 1);
}

#[test]
fn blank_text_adds_nothing() {
    let mut app = app_with(&["a"]);
    assert!(!app.add_todo("   \t ".to_string()));
    assert!(!app.add_todo(String::new()));
    assert_eq!(app.total_count(), 1);
}

#[test]
fn add_trims_appends_and_selects() {
    let mut app = app_with(&["a", "b"]);
    assert!(app.add_todo("  walk the dog ".to_string()));
    assert_eq!(app.total_count(), 3);
    assert_eq!(app.todos[2].text, "walk the dog");
    assert_eq!(app.todos[2].id, 3);
    assert!(!app.todos[2].completed);
    assert_eq!(app.selected, Some(2));
    assert_eq!(app.next_id, 4);
}

#[test]
fn first_id_of_empty_list_is_one() {
    let mut app = app_with(&[]);
    app.add_todo("x".to_string());
    assert_eq!(app.todos[0].id, 1);
    assert_eq!(app.selected, Some(0));
}

#[test]
fn ids_are_not_reused_after_delete() {
    let mut app = app_with(&["a", "b"]);
    app.selected = Some(1);
    app.delete_current_todo();
    app.add_todo("c".to_string());
    assert_eq!(app.todos[1].id, 3);
}

#[test]
fn ids_stop_when_used_up() {
    let mut app = App::new("f".to_string(), vec![item(usize::MAX - 1, "a")]);
    assert_eq!(app.next_id, usize::MAX);
    assert!(!app.add_todo("b".to_string()));
    assert_eq!(app.total_count(), 1);
}

#[test]
fn navigation_wraps_both_ways() {
    let mut app = app_with(&["a", "b", "c"]);
    app.next_item();
    assert_eq!(app.selected, Some(1));
    app.next_item();
    app.next_item();
    assert_eq!(app.selected, Some(0));
    app.previous_item();
    assert_eq!(app.selected, Some(2));
    app.previous_item();
    assert_eq!(app.selected, Some(1));
}

#[test]
fn navigation_stays_in_range() {
    let mut app = app_with(&["a", "b", "c", "d"]);
    for step in 0..50 {
        if step % 3 == 0 {
            app.previous_item();
        } else {
            app.next_item();
        }
        let i = app.selected.unwrap();
        assert!(i < 4);
    }
}

#[test]
fn navigation_on_empty_list_does_nothing() {
    let mut app = app_with(&[]);
    app.next_item();
    app.previous_item();
    assert_eq!(app.selected, None);
}

#[test]
fn navigation_from_no_selection_picks_first() {
    let mut app = app_with(&["a", "b"]);
    app.selected = None;
    app.previous_item();
    assert_eq!(app.selected, Some(0));
    app.selected = None;
    app.next_item();
    assert_eq!(app.selected, Some(0));
}

#[test]
fn toggle_twice_restores() {
    let mut app = app_with(&["a", "b"]);
    app.next_item();
    assert!(app.toggle_current_todo());
    assert!(app.todos[1].completed);
    assert_eq!(app.completed_count(), 1);
    assert!(app.toggle_current_todo());
    assert!(!app.todos[1].completed);
    assert_eq!(app.completed_count(), 0);
}

#[test]
fn toggle_and_delete_without_selection_do_nothing() {
    let mut app = app_with(&[]);
    assert!(!app.toggle_current_todo());
    assert!(!app.delete_current_todo());
    assert_eq!(app.total_count(), 0);
}

#[test]
fn delete_only_item_clears_selection() {
    let mut app = app_with(&["a"]);
    assert!(app.delete_current_todo());
    assert_eq!(app.selected, None);
    assert_eq!(app.total_count(), 0);
}

#[test]
fn delete_last_index_selects_new_last() {
    let mut app = app_with(&["A", "B", "C"]);
    app.selected = Some(2);
    app.delete_current_todo();
    assert_eq!(texts(&app), vec!["A", "B"]);
    assert_eq!(app.selected, Some(1));
}

#[test]
fn delete_middle_keeps_index_and_order() {
    let mut app = app_with(&["A", "B", "C"]);
    app.selected = Some(1);
    app.delete_current_todo();
    assert_eq!(texts(&app), vec!["A", "C"]);
    assert_eq!(app.selected, Some(1));
}

#[test]
fn adjust_selection_cases() {
    assert_eq!(adjust_selection(Some(0), 1, 0), None);
    assert_eq!(adjust_selection(Some(2), 3, 2), Some(1));
    assert_eq!(adjust_selection(Some(1), 3, 1), Some(1));
    assert_eq!(adjust_selection(Some(2), 4, 0), Some(1));
    assert_eq!(adjust_selection(None, 3, 1), None);
}

#[test]
fn completed_count_counts_flags() {
    let mut app = app_with(&["a", "b", "c"]);
    app.todos[0].completed = true;
    app.todos[2].completed = true;
    assert_eq!(app.completed_count(), 2);
    assert_eq!(app.total_count(), 3);
}

#[test]
fn typing_an_item_adds_it() {
    let mut app = app_with(&[]);
    assert!(!press(&mut app, KeyCode::Char('i')));
    assert_eq!(app.mode, AppMode::Insert);
    type_text(&mut app, "buy milk");
    assert_eq!(app.input_line(), "buy milk");
    assert!(press(&mut app, KeyCode::Enter));
    assert_eq!(app.mode, AppMode::Normal);
    assert_eq!(app.total_count(), 1);
    assert_eq!(app.todos[0].text, "buy milk");
    assert!(!app.todos[0].completed);
    assert_eq!(app.selected, Some(0));
    assert_eq!(app.input_line(), "");
}

#[test]
fn down_then_space_completes_second() {
    let mut app = app_with(&["a", "b"]);
    press(&mut app, KeyCode::Down);
    assert!(press(&mut app, KeyCode::Char(' ')));
    assert!(app.todos[1].completed);
    assert!(!app.todos[0].completed);
}

#[test]
fn escape_drops_typed_line() {
    let mut app = app_with(&[]);
    press(&mut app, KeyCode::Char('i'));
    type_text(&mut app, "abc");
    assert!(!press(&mut app, KeyCode::Esc));
    assert_eq!(app.mode, AppMode::Normal);
    assert_eq!(app.input_line(), "");
    assert_eq!(app.total_count(), 0);
}

#[test]
fn editing_keys_reach_the_line() {
    let mut app = app_with(&[]);
    press(&mut app, KeyCode::Char('i'));
    type_text(&mut app, "abd");
    press(&mut app, KeyCode::Left);
    press(&mut app, KeyCode::Char('c'));
    assert_eq!(app.input_line(), "abcd");
    press(&mut app, KeyCode::Backspace);
    assert_eq!(app.input_line(), "abd");
    app.handle_key_event(KeyEvent { code: KeyCode::Char('X'), kind: KeyEventKind::Press, modifiers: MOD_SHIFT });
    assert_eq!(app.input_line(), "abXd");
    app.handle_key_event(KeyEvent { code: KeyCode::Char('u'), kind: KeyEventKind::Press, modifiers: MOD_CONTROL });
    assert_eq!(app.input_line(), "");
}

#[test]
fn enter_on_blank_line_adds_nothing() {
    let mut app = app_with(&[]);
    press(&mut app, KeyCode::Char('i'));
    type_text(&mut app, "   ");
    assert!(!press(&mut app, KeyCode::Enter));
    assert_eq!(app.mode, AppMode::Normal);
    assert_eq!(app.total_count(), 0);
}

#[test]
fn normal_mode_keys() {
    let mut app = app_with(&["a", "b", "c"]);
    press(&mut app, KeyCode::Char('j'));
    assert_eq!(app.selected, Some(1));
    press(&mut app, KeyCode::Char('k'));
    press(&mut app, KeyCode::Up);
    assert_eq!(app.selected, Some(2));
    assert!(press(&mut app, KeyCode::Char('d')));
    assert_eq!(texts(&app), vec!["a", "b"]);
    assert!(!press(&mut app, KeyCode::Char('x')));
    assert_eq!(app.mode, AppMode::Normal);
    press(&mut app, KeyCode::Char('q'));
    assert!(app.should_quit);
}

#[test]
fn help_mode_leaves_on_escape_or_question_mark() {
    let mut app = app_with(&["a"]);
    press(&mut app, KeyCode::Char('?'));
    assert_eq!(app.mode, AppMode::Help);
    press(&mut app, KeyCode::Char('d'));
    assert_eq!(app.mode, AppMode::Help);
    assert_eq!(app.total_count(), 1);
    press(&mut app, KeyCode::Esc);
    assert_eq!(app.mode, AppMode::Normal);
    press(&mut app, KeyCode::Char('?'));
    press(&mut app, KeyCode::Char('?'));
    assert_eq!(app.mode, AppMode::Normal);
}

#[test]
fn released_keys_are_ignored() {
    let mut app = app_with(&["a"]);
    let release = KeyEvent { code: KeyCode::Char('d'), kind: KeyEventKind::Release, modifiers: 0 };
    assert!(!app.handle_key_event(release));
    assert_eq!(app.total_count(), 1);
    let repeat = KeyEvent { code: KeyCode::Char('q'), kind: KeyEventKind::Repeat, modifiers: 0 };
    app.handle_key_event(repeat);
    assert!(!app.should_quit);
}
