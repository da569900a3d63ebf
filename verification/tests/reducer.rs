use launcher_core::state::AppState;
use launcher_core::state::Effect;
use launcher_core::state::Event;
use launcher_core::state::LaunchError;
use launcher_core::state::Point;
use launcher_core::state::WindowKind;
use launcher_core::FetchError;
use launcher_core::UpdateItem;

fn item(k: &str, v: &str, a: &str) -> UpdateItem {
    UpdateItem::new(k.to_string(), v.to_string(), a.to_string())
}

#[test]
fn initial_state_is_empty() {
    let s = AppState::initial(Point { x: 5, y: 6 });
    assert!(s.news_items.is_empty());
    assert_eq!(s.input_text, "");
    assert!(s.drag.is_none());
    assert_eq!(s.window_pos, Point { x: 5, y: 6 });
    assert!(s.last_fetch_error.is_none());
    assert!(s.last_launch_error.is_none());
}

#[test]
fn drag_down_then_up_moves_nothing() {
    let mut s = AppState::initial(Point { x: 100, y: 200 });
    let e1 = s.handle(Event::PointerDown(Point { x: 7, y: 9 }));
    let e2 = s.handle(Event::PointerUp);
    assert_eq!(e1, Effect::Stay);
    assert_eq!(e2, Effect::Stay);
    assert_eq!(s.window_pos, Point { x: 100, y: 200 });
    assert!(s.drag.is_none());
}

#[test]
fn drag_follows_the_pointer_linearly() {
    let mut s = AppState::initial(Point { x: 100, y: 200 });
    s.handle(Event::PointerDown(Point { x: 10, y: 20 }));
    s.handle(Event::PointerMove(Point { x: 15, y: 26 }));
    assert_eq!(s.window_pos, Point { x: 105, y: 206 });
}

#[test]
fn repeated_moves_to_the_same_place_do_not_drift() {
    let mut s = AppState::initial(Point { x: 100, y: 200 });
    s.handle(Event::PointerDown(Point { x: 10, y: 20 }));
    s.handle(Event::PointerMove(Point { x: 42, y: 1 }));
    s.handle(Event::PointerMove(Point { x: 13, y: 21 }));
    s.handle(Event::PointerMove(Point { x: 13, y: 21 }));
    s.handle(Event::PointerMove(Point { x: 13, y: 21 }));
    assert_eq!(s.window_pos, Point { x: 103, y: 201 });
}

#[test]
fn moves_without_a_drag_do_nothing() {
    let mut s = AppState::initial(Point { x: 1, y: 2 });
    s.handle(Event::PointerMove(Point { x: 500, y: 500 }));
    assert_eq!(s.window_pos, Point { x: 1, y: 2 });
}

#[test]
fn refresh_replaces_the_whole_feed() {
    let mut s = AppState::initial(Point { x: 0, y: 0 });
    let tok0 = match s.handle(Event::RefreshRequested) {
        Effect::StartFetch(t) => t,
        e => panic!("expected a fetch, got {:?}", e),
    };
    s.handle(Event::FeedArrived(tok0, vec![item("X", "x", "x")]));
    assert_eq!(s.news_items.len(), 1);
    let tok1 = match s.handle(Event::RefreshRequested) {
        Effect::StartFetch(t) => t,
        e => panic!("expected a fetch, got {:?}", e),
    };
    assert!(s.news_items.is_empty());
    s.handle(Event::FeedArrived(tok1, vec![item("Y", "y", "y"), item("Z", "z", "z")]));
    assert_eq!(s.news_items.len(), 2);
    assert_eq!(s.news_items[0].update_key, "Y");
    assert_eq!(s.news_items[1].update_key, "Z");
}

#[test]
fn stale_results_cannot_overwrite_newer_ones() {
    let mut s = AppState::initial(Point { x: 0, y: 0 });
    let old_tok = match s.handle(Event::RefreshRequested) {
        Effect::StartFetch(t) => t,
        e => panic!("expected a fetch, got {:?}", e),
    };
    let new_tok = match s.handle(Event::RefreshRequested) {
        Effect::StartFetch(t) => t,
        e => panic!("expected a fetch, got {:?}", e),
    };
    s.handle(Event::FeedArrived(new_tok, vec![item("new", "n", "n")]));
    s.handle(Event::FeedArrived(old_tok, vec![item("old", "o", "o")]));
    assert_eq!(s.news_items.len(), 1);
    assert_eq!(s.news_items[0].update_key, "new");
    s.handle(Event::FetchFailed(old_tok, FetchError::Network));
    assert!(s.last_fetch_error.is_none());
}

#[test]
fn failed_fetch_is_recorded_and_leaves_the_feed() {
    let mut s = AppState::initial(Point { x: 0, y: 0 });
    let tok = match s.handle(Event::RefreshRequested) {
        Effect::StartFetch(t) => t,
        e => panic!("expected a fetch, got {:?}", e),
    };
    s.handle(Event::FetchFailed(tok, FetchError::HttpStatus(404)));
    assert!(s.news_items.is_empty());
    assert_eq!(s.last_fetch_error, Some(FetchError::HttpStatus(404)));
}

#[test]
fn settings_open_at_the_window_position() {
    let mut s = AppState::initial(Point { x: 33, y: 44 });
    assert_eq!(
        s.handle(Event::SettingsRequested),
        Effect::OpenSettings(Point { x: 33, y: 44 })
    );
}

#[test]
fn connect_launches_and_failures_are_recorded() {
    let mut s = AppState::initial(Point { x: 0, y: 0 });
    assert_eq!(s.handle(Event::ConnectRequested), Effect::Launch);
    s.handle(Event::LaunchFailed(LaunchError::NotFound));
    assert_eq!(s.last_launch_error, Some(LaunchError::NotFound));
}

#[test]
fn input_text_follows_the_settings_box() {
    let mut s = AppState::initial(Point { x: 0, y: 0 });
    s.handle(Event::InputChanged("player one".to_string()));
    assert_eq!(s.input_text, "player one");
}

#[test]
fn responses_become_the_matching_events() {
    let ok = launcher_core::state::response_event(7, 200, "{\"updates\":[]}");
    match ok {
        Event::FeedArrived(tok, items) => {
            assert_eq!(tok, 7);
            assert!(items.is_empty());
        }
        e => panic!("expected an arrival, got {:?}", e),
    }
    let not_found = launcher_core::state::response_event(8, 404, "{\"updates\":[]}");
    assert!(matches!(
        not_found,
        Event::FetchFailed(8, FetchError::HttpStatus(404))
    ));
    let garbled = launcher_core::state::response_event(9, 200, "no feed");
    assert!(matches!(garbled, Event::FetchFailed(9, FetchError::Decode)));
}

#[test]
fn closing_settings_keeps_running_closing_main_quits() {
    let mut s = AppState::initial(Point { x: 0, y: 0 });
    assert_eq!(s.handle(Event::CloseRequested(WindowKind::Settings)), Effect::Stay);
    assert_eq!(s.handle(Event::CloseRequested(WindowKind::Main)), Effect::Quit);
}
