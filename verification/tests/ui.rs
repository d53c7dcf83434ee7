use v2ex_tui::action::Effect;
use v2ex_tui::api::FetchError;
use v2ex_tui::event::{Event, KeyCode, KeyEvent, MouseEventKind, ALT, CONTROL, NO_MODIFIERS};
use v2ex_tui::model::Topic;
use v2ex_tui::ui::action::Action;
use v2ex_tui::ui::store::{action_for, handle_event, Home};
use v2ex_tui::ui::{Dispatcher, Store};

fn row(n: usize) -> Topic {
    Topic::new(
        format!("topic {}", n),
        String::new(),
        "0".to_string(),
        String::new(),
        String::new(),
        format!("https://www.v2ex.com/t/{}", n),
    )
}

fn store_with(n: usize) -> Store {
    let mut store = Store::new();
    assert_eq!(store.load(Ok((0..n).map(row).collect())), Ok(()));
    store
}

fn pressed(code: KeyCode, modifiers: u8) -> Event {
    Event::Key(KeyEvent { code, modifiers })
}

#[test]
fn a_new_store_runs_with_an_empty_list() {
    let store = Store::new();
    assert!(store.is_running());
    assert!(store.home().items().is_empty());
    assert_eq!(store.home().selected(), None);
    let home = Home::new();
    assert!(home.items().is_empty());
    assert_eq!(home.selected(), None);
}

#[test]
fn the_store_moves_the_cursor_within_the_list() {
    let mut store = store_with(3);
    assert_eq!(store.home().selected(), Some(0));
    assert_eq!(store.update(Action::PreviousRow), Effect::Idle);
    assert_eq!(store.home().selected(), Some(0));
    assert_eq!(store.update(Action::NextRow), Effect::Idle);
    assert_eq!(store.home().selected(), Some(1));
    store.update(Action::NextRow);
    store.update(Action::NextRow);
    assert_eq!(store.home().selected(), Some(2));
    assert_eq!(store.update(Action::Top), Effect::Idle);
    assert_eq!(store.home().selected(), Some(0));
    assert_eq!(store.update(Action::Bottom), Effect::Idle);
    assert_eq!(store.home().selected(), Some(2));
    assert_eq!(store.update(Action::Enter), Effect::Idle);
    assert_eq!(store.home().selected(), Some(2));
}

#[test]
fn the_store_has_no_cursor_on_an_empty_list() {
    let mut store = Store::new();
    for action in [Action::Top, Action::Bottom, Action::NextRow, Action::PreviousRow, Action::Enter] {
        assert_eq!(store.update(action), Effect::Idle);
        assert_eq!(store.home().selected(), None);
    }
    assert_eq!(store.update(Action::Reload), Effect::FetchFeed);
    assert_eq!(store.home().selected(), None);
}

#[test]
fn reload_resets_the_cursor_and_asks_for_the_feed() {
    let mut store = store_with(3);
    store.update(Action::Bottom);
    assert_eq!(store.update(Action::Reload), Effect::FetchFeed);
    assert_eq!(store.home().selected(), Some(0));
    assert_eq!(store.home().items().len(), 3);
    assert!(store.is_running());
}

#[test]
fn quit_stops_the_store() {
    let mut store = store_with(3);
    assert_eq!(store.update(Action::Quit), Effect::Quit);
    assert!(!store.is_running());
    assert_eq!(store.home().items().len(), 3);
}

#[test]
fn the_store_takes_what_was_fetched() {
    let mut store = store_with(3);
    store.update(Action::Bottom);
    assert_eq!(store.load(Ok(vec![row(7), row(8)])), Ok(()));
    assert_eq!(store.home().items().len(), 2);
    assert_eq!(store.home().items()[0].link, "https://www.v2ex.com/t/7");
    assert_eq!(store.home().selected(), Some(0));
    assert_eq!(store.load(Ok(Vec::new())), Ok(()));
    assert_eq!(store.home().selected(), None);
}

#[test]
fn a_failed_fetch_leaves_the_store() {
    let mut store = store_with(3);
    store.update(Action::Bottom);
    assert_eq!(store.load(Err(FetchError::Feed)), Err(FetchError::Feed));
    assert_eq!(store.home().items().len(), 3);
    assert_eq!(store.home().selected(), Some(2));
    assert!(store.is_running());
}

#[test]
fn the_dispatcher_hands_actions_to_the_store() {
    let mut dispatcher = Dispatcher::new();
    let mut store = store_with(2);
    assert_eq!(dispatcher.dispatch(&mut store, Action::NextRow), Effect::Idle);
    assert_eq!(store.home().selected(), Some(1));
    assert_eq!(dispatcher.dispatch(&mut store, Action::Reload), Effect::FetchFeed);
    assert_eq!(store.home().selected(), Some(0));
    assert_eq!(dispatcher.dispatch(&mut store, Action::Quit), Effect::Quit);
    assert!(!store.is_running());
}

#[test]
fn the_store_reads_its_keys() {
    assert_eq!(action_for(pressed(KeyCode::Char('q'), NO_MODIFIERS)), Some(Action::Quit));
    assert_eq!(action_for(pressed(KeyCode::Char('c'), CONTROL)), Some(Action::Quit));
    assert_eq!(action_for(pressed(KeyCode::Char('c'), CONTROL | ALT)), Some(Action::Quit));
    assert_eq!(action_for(pressed(KeyCode::Char('c'), NO_MODIFIERS)), None);
    assert_eq!(action_for(pressed(KeyCode::Char('c'), ALT)), None);
    assert_eq!(action_for(pressed(KeyCode::Char('r'), NO_MODIFIERS)), Some(Action::Reload));
    assert_eq!(action_for(pressed(KeyCode::Char('t'), NO_MODIFIERS)), Some(Action::Top));
    assert_eq!(action_for(pressed(KeyCode::Char('b'), NO_MODIFIERS)), Some(Action::Bottom));
    assert_eq!(action_for(pressed(KeyCode::Up, NO_MODIFIERS)), Some(Action::PreviousRow));
    assert_eq!(action_for(pressed(KeyCode::Char('k'), NO_MODIFIERS)), Some(Action::PreviousRow));
    assert_eq!(action_for(pressed(KeyCode::Down, NO_MODIFIERS)), Some(Action::NextRow));
    assert_eq!(action_for(pressed(KeyCode::Char('j'), NO_MODIFIERS)), Some(Action::NextRow));
    assert_eq!(action_for(pressed(KeyCode::Enter, NO_MODIFIERS)), Some(Action::Enter));
    assert_eq!(action_for(pressed(KeyCode::Esc, NO_MODIFIERS)), None);
    assert_eq!(action_for(pressed(KeyCode::Char('x'), NO_MODIFIERS)), None);
    assert_eq!(action_for(Event::Mouse(MouseEventKind::ScrollUp)), None);
    assert_eq!(action_for(Event::Other), None);
}

#[test]
fn an_event_moves_the_store() {
    let mut store = store_with(3);
    assert_eq!(handle_event(&mut store, pressed(KeyCode::Down, NO_MODIFIERS)), Effect::Idle);
    assert_eq!(store.home().selected(), Some(1));
    assert_eq!(handle_event(&mut store, pressed(KeyCode::Char('x'), NO_MODIFIERS)), Effect::Idle);
    assert_eq!(store.home().selected(), Some(1));
    assert_eq!(handle_event(&mut store, pressed(KeyCode::Char('r'), NO_MODIFIERS)), Effect::FetchFeed);
    assert_eq!(store.home().selected(), Some(0));
    assert_eq!(handle_event(&mut store, pressed(KeyCode::Char('q'), NO_MODIFIERS)), Effect::Quit);
    assert!(!store.is_running());
}
