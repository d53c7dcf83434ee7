use v2ex_tui::action::{Action, Effect};
use v2ex_tui::app::App;
use v2ex_tui::event::{Event, KeyCode, KeyEvent, MouseEventKind, ALT, CONTROL, NO_MODIFIERS, SHIFT};
use v2ex_tui::pages::PageType;

const FEED_BODY: &str = r#"<?xml version="1.0" encoding="utf-8"?>
<feed xmlns="http://www.w3.org/2005/Atom">
  <title>V2EX</title>
  <id>https://www.v2ex.com/</id>
  <updated>2025-02-17T02:00:00Z</updated>
  <entry>
    <title>one</title>
    <link href="https://www.v2ex.com/t/1" />
    <id>1</id>
    <updated>2025-02-17T01:00:00Z</updated>
    <author><name>alice</name></author>
  </entry>
  <entry>
    <title>two</title>
    <link href="https://www.v2ex.com/t/123#reply5" />
    <id>2</id>
    <updated>2025-02-17T01:00:00Z</updated>
    <author><name>bob</name></author>
  </entry>
  <entry>
    <title>three</title>
    <link href="https://www.v2ex.com/t/3#reply1" />
    <id>3</id>
    <updated>2025-02-17T01:00:00Z</updated>
    <author><name>carol</name></author>
  </entry>
</feed>
"#;

const PAGE_BODY: &str = r#"<div class="header"><h1>two</h1><small><a>bob</a><span title="then">x</span></small></div>
<div class="topic_content">body</div>
<div class="cell" id="r_1"><span class="no">1</span><strong><a>carol</a></strong><span class="ago">1h</span><div class="reply_content">@bob yes</div></div>
"#;

fn key(code: KeyCode) -> Event {
    Event::Key(KeyEvent { code, modifiers: NO_MODIFIERS })
}

fn key_with(code: KeyCode, modifiers: u8) -> Event {
    Event::Key(KeyEvent { code, modifiers })
}

fn loaded_app() -> App {
    let mut app = App::new();
    assert_eq!(app.switch_page(PageType::Home), Some(Action::FetchTopics));
    assert_eq!(app.update(Action::FetchTopics), Effect::FetchFeed);
    app.feed_fetched(Ok(FEED_BODY.as_bytes().to_vec()));
    app
}

fn app_on_detail() -> App {
    let mut app = loaded_app();
    app.update(Action::NextRow);
    let url = "https://www.v2ex.com/t/123#reply5".to_string();
    assert_eq!(app.update(Action::Enter), Effect::Dispatch(Action::FetchTopicDetail(url.clone())));
    assert_eq!(app.update(Action::FetchTopicDetail(url.clone())), Effect::FetchPage(url.clone()));
    app.page_fetched(&url, Ok(PAGE_BODY.to_string()));
    app
}

#[test]
fn the_app_starts_on_the_home_page() {
    let app = App::new();
    assert_eq!(app.current_page(), PageType::Home);
    assert!(app.home().items().is_empty());
    assert!(app.home().is_loading());
    assert_eq!(app.home().selected(), None);
    assert!(app.detail().is_loading());
    assert_eq!(app.detail().topic_detail(), None);
    assert_eq!(app.crawler().feed_url(), "https://www.v2ex.com/feed/tab/all.xml");
}

#[test]
fn the_first_fetch_fills_the_home_page() {
    let app = loaded_app();
    assert_eq!(app.current_page(), PageType::Home);
    assert!(!app.home().is_loading());
    assert_eq!(app.home().items().len(), 3);
    assert_eq!(app.home().selected(), Some(0));
    assert_eq!(app.home().items()[1].comment, "5");
    assert_eq!(app.home().items()[0].comment, "0");
    assert_eq!(app.home().items()[1].link, "https://www.v2ex.com/t/123#reply5");
}

#[test]
fn quit_keys_quit_on_every_page() {
    for app in [loaded_app(), app_on_detail()] {
        assert_eq!(app.handle_event(key(KeyCode::Char('q'))), Some(Action::Quit));
        assert_eq!(app.handle_event(key_with(KeyCode::Char('q'), SHIFT)), Some(Action::Quit));
        assert_eq!(app.handle_event(key_with(KeyCode::Char('c'), CONTROL)), Some(Action::Quit));
        assert_eq!(app.handle_event(key(KeyCode::Char('c'))), None);
        assert_eq!(app.handle_event(key_with(KeyCode::Char('c'), CONTROL | ALT)), None);
        assert_eq!(app.handle_event(Event::Other), None);
    }
}

#[test]
fn input_goes_to_the_active_page() {
    let home = loaded_app();
    assert_eq!(home.handle_event(key(KeyCode::Down)), Some(Action::NextRow));
    assert_eq!(home.handle_event(key(KeyCode::Enter)), Some(Action::Enter));
    assert_eq!(home.handle_event(key(KeyCode::Esc)), None);
    assert_eq!(home.handle_event(Event::Mouse(MouseEventKind::ScrollDown)), None);
    let detail = app_on_detail();
    assert_eq!(detail.handle_event(key(KeyCode::Down)), Some(Action::LineDown(3)));
    assert_eq!(detail.handle_event(key(KeyCode::Enter)), None);
    assert_eq!(detail.handle_event(key(KeyCode::Esc)), Some(Action::GoHome));
    assert_eq!(
        detail.handle_event(key(KeyCode::Char('o'))),
        Some(Action::OpenBrowser("https://www.v2ex.com/t/123#reply5".to_string()))
    );
}

#[test]
fn quit_ends_the_process_and_changes_nothing() {
    let mut app = loaded_app();
    app.update(Action::NextRow);
    assert_eq!(app.update(Action::Quit), Effect::Quit);
    assert_eq!(app.current_page(), PageType::Home);
    assert_eq!(app.home().selected(), Some(1));
    let mut app = app_on_detail();
    assert_eq!(app.update(Action::Quit), Effect::Quit);
    assert_eq!(app.current_page(), PageType::Detail);
    assert!(app.detail().topic_detail().is_some());
}

#[test]
fn open_browser_is_left_to_the_caller() {
    let mut app = app_on_detail();
    let url = "https://www.v2ex.com/t/123#reply5".to_string();
    assert_eq!(app.update(Action::OpenBrowser(url.clone())), Effect::OpenBrowser(url.clone()));
    assert_eq!(app.current_page(), PageType::Detail);
    assert!(app.detail().topic_detail().is_some());
    let mut app = loaded_app();
    assert_eq!(app.update(Action::OpenBrowser(url.clone())), Effect::OpenBrowser(url));
    assert_eq!(app.current_page(), PageType::Home);
    assert_eq!(app.home().items().len(), 3);
}

#[test]
fn enter_on_the_home_page_opens_the_detail_page() {
    let mut app = app_on_detail();
    assert_eq!(app.update(Action::GoHome), Effect::Dispatch(Action::FetchTopics));
    app.update(Action::Bottom);
    assert_eq!(
        app.update(Action::Enter),
        Effect::Dispatch(Action::FetchTopicDetail("https://www.v2ex.com/t/3#reply1".to_string()))
    );
    assert_eq!(app.current_page(), PageType::Detail);
    assert!(app.detail().is_loading());
    assert_eq!(app.detail().topic_detail(), None);
    assert_eq!(app.detail().scroll(), 0);
    assert_eq!(app.home().selected(), Some(2));
    assert_eq!(app.home().items().len(), 3);
}

#[test]
fn enter_on_an_empty_home_page_opens_a_waiting_detail_page() {
    let mut app = App::new();
    assert_eq!(app.update(Action::Enter), Effect::Idle);
    assert_eq!(app.current_page(), PageType::Detail);
    assert!(app.detail().is_loading());
    assert_eq!(app.detail().topic_detail(), None);
}

#[test]
fn the_fetched_page_fills_the_detail_page() {
    let app = app_on_detail();
    assert_eq!(app.current_page(), PageType::Detail);
    assert!(!app.detail().is_loading());
    let detail = app.detail().topic_detail().unwrap();
    assert_eq!(detail.title, "two");
    assert_eq!(detail.author, "bob");
    assert_eq!(detail.updated, "then");
    assert_eq!(detail.content, "body");
    assert_eq!(detail.link, "https://www.v2ex.com/t/123#reply5");
    assert_eq!(detail.replies.len(), 1);
    assert_eq!(detail.replies[0].reply_to, "bob");
    assert_eq!(app.home().items().len(), 3);
}

#[test]
fn go_home_on_the_detail_page_returns_and_fetches() {
    let mut app = app_on_detail();
    app.update(Action::LineDown(3));
    assert_eq!(app.update(Action::GoHome), Effect::Dispatch(Action::FetchTopics));
    assert_eq!(app.current_page(), PageType::Home);
    assert_eq!(app.detail().topic_detail(), None);
    assert!(app.detail().is_loading());
    assert_eq!(app.detail().scroll(), 0);
    assert_eq!(app.home().items().len(), 3);
    assert_eq!(app.home().selected(), Some(1));
    assert_eq!(app.update(Action::FetchTopics), Effect::FetchFeed);
    assert!(app.home().is_loading());
    assert_eq!(app.home().selected(), Some(0));
}

#[test]
fn enter_on_the_detail_page_does_nothing() {
    let mut app = app_on_detail();
    assert_eq!(app.update(Action::Enter), Effect::Idle);
    assert_eq!(app.current_page(), PageType::Detail);
    assert!(app.detail().topic_detail().is_some());
}

#[test]
fn go_home_on_the_home_page_does_nothing() {
    let mut app = loaded_app();
    app.update(Action::NextRow);
    assert_eq!(app.update(Action::GoHome), Effect::Idle);
    assert_eq!(app.current_page(), PageType::Home);
    assert_eq!(app.home().selected(), Some(1));
    assert!(!app.home().is_loading());
}

#[test]
fn other_actions_go_to_the_active_page() {
    let mut app = loaded_app();
    assert_eq!(app.update(Action::Bottom), Effect::Idle);
    assert_eq!(app.home().selected(), Some(2));
    assert_eq!(app.update(Action::LineDown(3)), Effect::Idle);
    assert_eq!(app.detail().scroll(), 0);
    assert_eq!(app.update(Action::Reload), Effect::Dispatch(Action::FetchTopics));
    assert_eq!(app.update(Action::Noop), Effect::Idle);
    let mut app = app_on_detail();
    assert_eq!(app.update(Action::NextRow), Effect::Idle);
    assert_eq!(app.home().selected(), Some(1));
    assert_eq!(app.update(Action::Reload), Effect::Idle);
    assert!(!app.home().is_loading());
    assert_eq!(app.update(Action::FetchTopics), Effect::Idle);
}

#[test]
fn chains_end_after_two_actions() {
    for start in [Action::Reload, Action::Enter, Action::GoHome] {
        for mut app in [loaded_app(), app_on_detail()] {
            let mut effect = app.update(start.clone());
            let mut steps = 1;
            while let Effect::Dispatch(next) = effect {
                effect = app.update(next);
                steps += 1;
            }
            assert!(steps <= 2);
        }
    }
}

#[test]
fn switching_makes_the_page_ready() {
    let mut app = app_on_detail();
    assert_eq!(app.switch_page(PageType::Home), Some(Action::FetchTopics));
    assert_eq!(app.current_page(), PageType::Home);
    assert!(app.detail().topic_detail().is_some());
    assert_eq!(app.switch_page(PageType::Detail), None);
    assert_eq!(app.current_page(), PageType::Detail);
    assert_eq!(app.detail().topic_detail(), None);
    assert!(app.detail().is_loading());
    assert_eq!(app.home().items().len(), 3);
}

#[test]
fn a_failed_feed_fetch_stays_on_the_page() {
    let mut app = loaded_app();
    app.update(Action::Reload);
    app.update(Action::FetchTopics);
    app.feed_fetched(Err("dns failure".to_string()));
    assert_eq!(app.current_page(), PageType::Home);
    assert!(!app.home().is_loading());
    assert_eq!(app.home().error(), Some(&"dns failure".to_string()));
    assert_eq!(app.home().items().len(), 3);
    app.feed_fetched(Ok(b"not a feed".to_vec()));
    assert_eq!(app.home().error(), Some(&"the feed could not be read".to_string()));
    assert_eq!(app.home().items().len(), 3);
    app.feed_fetched(Ok(FEED_BODY.as_bytes().to_vec()));
    assert_eq!(app.home().error(), None);
}

#[test]
fn a_failed_page_fetch_stays_on_the_page() {
    let mut app = loaded_app();
    app.update(Action::Enter);
    app.update(Action::FetchTopicDetail("https://www.v2ex.com/t/1".to_string()));
    app.page_fetched("https://www.v2ex.com/t/1", Err("status 503".to_string()));
    assert_eq!(app.current_page(), PageType::Detail);
    assert!(!app.detail().is_loading());
    assert_eq!(app.detail().topic_detail(), None);
    assert_eq!(app.detail().error(), Some(&"status 503".to_string()));
    assert_eq!(app.home().items().len(), 3);
}

#[test]
fn a_failed_fetch_of_another_page_leaves_no_stale_topic() {
    let mut app = app_on_detail();
    assert!(app.detail().topic_detail().is_some());
    let url = "https://www.v2ex.com/t/3#reply1".to_string();
    assert_eq!(app.update(Action::FetchTopicDetail(url.clone())), Effect::FetchPage(url.clone()));
    assert!(app.detail().is_loading());
    assert_eq!(app.detail().topic_detail(), None);
    app.page_fetched(&url, Err("connection reset".to_string()));
    assert_eq!(app.current_page(), PageType::Detail);
    assert!(!app.detail().is_loading());
    assert_eq!(app.detail().topic_detail(), None);
    assert_eq!(app.detail().error(), Some(&"connection reset".to_string()));
    assert_eq!(app.home().items().len(), 3);
    app.page_fetched(&url, Ok(PAGE_BODY.to_string()));
    assert_eq!(app.detail().error(), None);
    assert_eq!(app.detail().topic_detail().unwrap().link, url);
}

#[test]
fn a_feed_that_is_too_large_shows_as_a_failure() {
    let mut app = loaded_app();
    let mut body = String::from(r#"<feed xmlns="http://www.w3.org/2005/Atom"><a:b>"#);
    for _ in 0..100_000 {
        body.push_str("<c>");
    }
    app.update(Action::Reload);
    app.update(Action::FetchTopics);
    app.feed_fetched(Ok(body.into_bytes()));
    assert!(!app.home().is_loading());
    assert_eq!(app.home().error(), Some(&"the body is too large to read".to_string()));
    assert_eq!(app.home().items().len(), 3);
}
