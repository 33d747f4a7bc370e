use minions::context::Context;
use minions::controller::{indices_in_range, MinionsApp};
use minions::error::{ActionError, ErrorKind};
use minions::item::{Item, ItemData};
use minions::keys::{command_of, key_binding, Command, Key, KeyPress};
use minions::status::{Capability, Status, FILTER_TEXT_CLEAR_MILLIS};

const RUNS: Capability = Capability { selectable: true, selectable_with_text: false };
const TAKES_TEXT: Capability = Capability { selectable: false, selectable_with_text: true };
const INERT: Capability = Capability { selectable: false, selectable_with_text: false };

fn five() -> MinionsApp {
    let items = ["one", "two", "three", "four", "five"].iter().map(|t| Item::new(t)).collect();
    MinionsApp::new(Context::new(items))
}

fn filtering(app: &MinionsApp) -> (i32, String, Vec<usize>) {
    match &app.status {
        Status::FilteringEntering(f, _) | Status::FilteringMoving(f) => {
            (f.selected_idx, f.filter_text.clone(), f.filter_indices.clone())
        }
        other => panic!("not filtering: {:?}", other),
    }
}

fn titles(app: &MinionsApp) -> Vec<String> {
    app.ctx.list_items.iter().map(|i| i.title.clone()).collect()
}

#[test]
fn typing_with_no_match_blocks_enter() {
    let mut app = five();
    assert_eq!(app.pending_query('x').as_deref(), Some("x"));
    assert!(app.process_keyevent_char('x', vec![], 0));
    assert!(matches!(app.status, Status::FilteringEntering(_, 0)));
    assert_eq!(filtering(&app), (-1, "x".to_string(), vec![]));
    assert_eq!(app.selected_index(), None);
    assert!(app.process_keyevent_enter(RUNS, String::new()).is_none());
    assert_eq!(filtering(&app), (-1, "x".to_string(), vec![]));
    assert!(matches!(app.status, Status::FilteringEntering(_, 0)));
}

#[test]
fn typing_with_matches_highlights_first() {
    let mut app = five();
    app.process_keyevent_char('o', vec![0, 1, 3], 5);
    assert_eq!(filtering(&app), (0, "o".to_string(), vec![0, 1, 3]));
    assert_eq!(app.pending_query('n').as_deref(), Some("on"));
    app.process_keyevent_char('n', vec![0], 6);
    assert_eq!(filtering(&app), (0, "on".to_string(), vec![0]));
    assert_eq!(app.selected_index(), Some(0));
}

#[test]
fn enter_runs_and_success_replaces_list() {
    let mut app = five();
    app.process_keyevent_move(1);
    app.process_keyevent_move(1);
    assert_eq!(app.selected_index(), Some(1));
    let req = app.process_keyevent_enter(RUNS, String::new()).unwrap();
    assert_eq!(req.item_index, 1);
    assert!(req.text.is_none());
    assert!(matches!(app.status, Status::Running(j) if j == req.job));
    let got = vec![Item::new("alpha"), Item::new("beta")];
    assert!(app.process_running_callback(req.job, Ok(got)));
    assert!(matches!(app.status, Status::FilteringNone));
    assert_eq!(titles(&app), vec!["alpha", "beta"]);
}

#[test]
fn enter_runs_and_failure_is_error() {
    let mut app = five();
    app.process_keyevent_move(1);
    let req = app.process_keyevent_enter(RUNS, String::new()).unwrap();
    let err = ActionError::new(ErrorKind::ActionFailed, "boom");
    assert!(app.process_running_callback(req.job, Err(err)));
    match &app.status {
        Status::Error(e) => {
            assert_eq!(e.kind, ErrorKind::ActionFailed);
            assert_eq!(e.description(), "boom");
        }
        other => panic!("{:?}", other),
    }
    assert_eq!(titles(&app).len(), 5);
    let ui = app.update_ui();
    assert!(ui.error.is_some());
    app.process_keyevent_move(1);
    assert!(matches!(app.status, Status::FilteringNone));
}

#[test]
fn second_enter_while_running_is_ignored() {
    let mut app = five();
    app.process_keyevent_move(1);
    let req = app.process_keyevent_enter(RUNS, String::new()).unwrap();
    assert!(app.process_keyevent_enter(RUNS, String::new()).is_none());
    assert!(!app.process_keyevent_space(TAKES_TEXT));
    app.process_keyevent_move(1);
    assert!(!app.process_keyevent_char('a', vec![], 3));
    assert!(matches!(app.status, Status::Running(j) if j == req.job));
    assert!(app.process_running_callback(req.job, Ok(vec![Item::new("z")])));
    assert_eq!(titles(&app), vec!["z"]);
}

#[test]
fn escape_while_running_drops_the_result() {
    let mut app = five();
    app.process_keyevent_move(1);
    let req = app.process_keyevent_enter(RUNS, String::new()).unwrap();
    assert!(!app.process_keyevent_escape());
    assert!(matches!(app.status, Status::FilteringNone));
    assert!(!app.process_running_callback(req.job, Ok(vec![Item::new("late")])));
    assert_eq!(titles(&app).len(), 5);
}

#[test]
fn free_text_entry_then_run() {
    let mut app = five();
    app.process_keyevent_move(1);
    app.process_keyevent_move(1);
    assert!(app.process_keyevent_enter(TAKES_TEXT, String::new()).is_none());
    assert!(matches!(app.status, Status::EnteringText(1)));
    let ui = app.update_ui();
    assert!(ui.entry_editable);
    assert_eq!(ui.action_name.as_deref(), Some("two"));
    let req = app.process_keyevent_enter(INERT, "hello".to_string()).unwrap();
    assert_eq!(req.item_index, 1);
    assert_eq!(req.text.as_deref(), Some("hello"));
}

#[test]
fn space_enters_text_only_for_text_items() {
    let mut app = five();
    app.process_keyevent_move(1);
    assert!(!app.process_keyevent_space(RUNS));
    assert!(!app.process_keyevent_space(INERT));
    assert!(app.process_keyevent_space(TAKES_TEXT));
    assert!(matches!(app.status, Status::EnteringText(0)));
}

#[test]
fn enter_on_inert_item_changes_nothing() {
    let mut app = five();
    app.process_keyevent_move(1);
    assert!(app.process_keyevent_enter(INERT, String::new()).is_none());
    assert_eq!(filtering(&app), (0, String::new(), vec![0, 1, 2, 3, 4]));
}

#[test]
fn move_clamps_for_any_delta() {
    let mut app = five();
    app.process_keyevent_move(-1);
    assert_eq!(filtering(&app).0, 0);
    app.process_keyevent_move(i32::MAX);
    assert_eq!(filtering(&app).0, 4);
    app.process_keyevent_move(i32::MIN);
    assert_eq!(filtering(&app).0, 0);
    app.process_keyevent_char('q', vec![], 1);
    app.process_keyevent_move(3);
    assert_eq!(filtering(&app).0, -1);
    assert!(matches!(app.status, Status::FilteringMoving(_)));
}

#[test]
fn move_over_empty_list_selects_nothing() {
    let mut app = MinionsApp::new(Context::new(vec![]));
    app.process_keyevent_move(1);
    assert_eq!(filtering(&app), (-1, String::new(), vec![]));
}

#[test]
fn decay_returns_to_unfiltered_once() {
    let mut app = five();
    app.process_keyevent_char('t', vec![1, 2], 1000);
    app.process_keyevent_char('w', vec![1], 1400);
    assert!(!app.process_timeout(2000));
    assert!(matches!(app.status, Status::FilteringEntering(_, 1400)));
    assert!(app.process_timeout(1400 + FILTER_TEXT_CLEAR_MILLIS));
    assert!(matches!(app.status, Status::FilteringNone));
    assert!(!app.process_timeout(9000));
    assert!(matches!(app.status, Status::FilteringNone));
}

#[test]
fn navigation_stops_the_decay() {
    let mut app = five();
    app.process_keyevent_char('t', vec![1, 2], 1000);
    app.process_keyevent_move(1);
    assert!(!app.process_timeout(5000));
    assert!(matches!(app.status, Status::FilteringMoving(_)));
}

#[test]
fn tab_sends_and_reports() {
    let mut app = five();
    app.process_keyevent_move(1);
    app.process_keyevent_tab(None);
    assert!(matches!(app.status, Status::FilteringMoving(_)));
    app.process_keyevent_tab(Some(Ok(())));
    assert!(matches!(app.status, Status::FilteringNone));
    app.process_keyevent_move(1);
    app.process_keyevent_tab(Some(Err(ActionError::new(ErrorKind::ActionFailed, "no"))));
    assert!(matches!(app.status, Status::Error(_)));
}

#[test]
fn copy_leaves_typing_mode() {
    let mut app = five();
    app.process_keyevent_char('f', vec![3, 4], 10);
    app.process_keyevent_copy();
    assert_eq!(filtering(&app), (0, "f".to_string(), vec![3, 4]));
    assert!(matches!(app.status, Status::FilteringMoving(_)));
}

#[test]
fn escape_steps_back() {
    let mut app = five();
    app.process_keyevent_char('f', vec![3, 4], 10);
    assert!(!app.process_keyevent_escape());
    assert!(matches!(app.status, Status::FilteringNone));
    assert!(!app.process_keyevent_escape());
    assert!(matches!(app.status, Status::Initial));
    assert!(app.process_keyevent_escape());
    assert!(matches!(app.status, Status::Initial));
}

#[test]
fn reset_restores_root_list() {
    let mut app = five();
    app.process_keyevent_move(1);
    let req = app.process_keyevent_enter(RUNS, String::new()).unwrap();
    app.process_running_callback(req.job, Ok(vec![Item::new("z")]));
    app.ctx.set_reference(ItemData::Text("ref".to_string()));
    app.reset_window(false, None);
    assert!(matches!(app.status, Status::Initial));
    assert_eq!(titles(&app), vec!["one", "two", "three", "four", "five"]);
    assert!(app.ctx.reference.is_none());
}

#[test]
fn reset_with_clipboard_binds_reference() {
    let mut app = five();
    app.reset_window(true, Some("clip".to_string()));
    assert!(matches!(app.status, Status::FilteringNone));
    assert!(matches!(&app.ctx.reference, Some(ItemData::Text(t)) if t == "clip"));
    app.reset_window(true, None);
    assert!(matches!(app.status, Status::Initial));
    assert!(app.ctx.reference.is_none());
}

#[test]
fn projection_of_filtered_view() {
    let mut app = five();
    app.process_keyevent_char('e', vec![2, 4], 10);
    let ui = app.update_ui();
    assert_eq!(ui.items, vec![2, 4]);
    assert_eq!(ui.highlight, 0);
    assert_eq!(ui.entry_item, Some(2));
    assert_eq!(ui.filter_text, "e");
    assert!(ui.show_reference);
    assert!(!ui.spinning);
}

#[test]
fn projection_hides_empty_list() {
    let mut app = MinionsApp::new(Context::new(vec![]));
    app.reset_window(true, Some("c".to_string()));
    assert!(app.update_ui().hide_window);
}

#[test]
fn index_range_check() {
    assert!(indices_in_range(&vec![0, 4], 5));
    assert!(!indices_in_range(&vec![0, 5], 5));
}

#[test]
fn key_bindings() {
    let plain = |key| KeyPress { key, control: false };
    let ctrl = |key| KeyPress { key, control: true };
    assert_eq!(command_of(plain(Key::Return)), (Command::Enter, true));
    assert_eq!(command_of(plain(Key::Space)), (Command::Space, false));
    assert_eq!(command_of(plain(Key::Escape)), (Command::Escape, true));
    assert_eq!(command_of(plain(Key::Tab)), (Command::Tab, true));
    assert_eq!(command_of(ctrl(Key::Char('j'))), (Command::Move(1), true));
    assert_eq!(command_of(ctrl(Key::Char('k'))), (Command::Move(-1), true));
    assert_eq!(command_of(ctrl(Key::Char('c'))), (Command::Copy, true));
    assert_eq!(command_of(plain(Key::Down)), (Command::Move(1), true));
    assert_eq!(command_of(plain(Key::Up)), (Command::Move(-1), true));
    assert_eq!(command_of(plain(Key::Char('j'))), (Command::Type('j'), false));
    assert_eq!(command_of(plain(Key::Char('\u{e9}'))), (Command::Type('\u{e9}'), false));
    assert_eq!(command_of(plain(Key::Char('3'))), (Command::Ignore, false));
    assert_eq!(command_of(plain(Key::Other)), (Command::Ignore, false));
    assert_eq!(key_binding(plain(Key::Char('x')), false), (Command::Ignore, false));
    assert_eq!(key_binding(plain(Key::Char('x')), true), (Command::Type('x'), false));
}
