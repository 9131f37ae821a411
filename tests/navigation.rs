use tui::events::{event_of_poll, Polled, POLL_TIMEOUT_MS};
use tui::gateway::{items_endpoint, songs_endpoint};
use tui::keys::{command_of, Command, Key};
use tui::nav::wrapped_index;
use tui::state::{Action, App, AppEvent};
use tui::types::{CategoryItem, FetchError, Focus, Song};

fn item(id: i64, name: &str) -> CategoryItem {
    CategoryItem {
        id,
        name: name.to_string(),
        image_url: String::new(),
        user_id: 7,
        description: String::new(),
        source_type: "local".to_string(),
        created_at: "2024-01-01T00:00:00Z".to_string(),
        song_count: 0,
    }
}

fn song(id: &str, title: &str, artist: &str, duration: &str) -> Song {
    Song {
        id: id.to_string(),
        title: title.to_string(),
        artist: artist.to_string(),
        duration: duration.to_string(),
    }
}

/// Stands in for the network: always the same three items.
fn stub_fetch_items(_category: &str) -> Result<Vec<CategoryItem>, FetchError> {
    Ok(vec![item(1, "One"), item(2, "Two"), item(3, "Three")])
}

fn press(app: &mut App, key: Key) -> Action {
    app.handle_event(AppEvent::Input(key))
}

#[test]
fn initial_state() {
    let app = App::new();
    assert_eq!(app.focus(), Focus::Browser);
    assert_eq!(
        app.categories(),
        &vec![
            "Playlists".to_string(),
            "Artists".to_string(),
            "Albums".to_string(),
            "Provider".to_string()
        ]
    );
    assert!(app.items().is_empty());
    assert!(app.songs().is_empty());
    assert_eq!(app.category_cursor(), Some(0));
    assert_eq!(app.item_cursor(), None);
    assert_eq!(app.song_cursor(), None);
    assert!(!app.is_loading());
    assert_eq!(app.initial_request(), Action::FetchItems("Playlists".to_string()));
}

#[test]
fn wrapped_index_values() {
    assert_eq!(wrapped_index(Some(0), 4, true), 1);
    assert_eq!(wrapped_index(Some(3), 4, true), 0);
    assert_eq!(wrapped_index(Some(0), 4, false), 3);
    assert_eq!(wrapped_index(Some(2), 4, false), 1);
    assert_eq!(wrapped_index(None, 4, true), 1);
    assert_eq!(wrapped_index(None, 4, false), 3);
    assert_eq!(wrapped_index(Some(0), 1, true), 0);
    assert_eq!(wrapped_index(Some(0), 1, false), 0);
}

#[test]
fn cursor_stays_in_bounds_over_moves() {
    let mut app = App::new();
    press(&mut app, Key::Left);
    let n = app.categories().len();
    let keys = [Key::Down, Key::Up, Key::Up, Key::Char('k'), Key::Down, Key::Char('j'), Key::Up,
        Key::Up, Key::Up, Key::Up, Key::Up, Key::Down];
    for k in keys {
        press(&mut app, k);
        let c = app.category_cursor().unwrap();
        assert!(c < n);
    }
}

#[test]
fn move_prev_wraps_to_last() {
    let mut app = App::new();
    press(&mut app, Key::Left);
    press(&mut app, Key::Up);
    assert_eq!(app.category_cursor(), Some(3));
    press(&mut app, Key::Down);
    assert_eq!(app.category_cursor(), Some(0));
}

#[test]
fn full_cycle_returns_to_zero() {
    let mut app = App::new();
    press(&mut app, Key::Left);
    let n = app.categories().len();
    for step in 1..=n {
        press(&mut app, Key::Down);
        assert_eq!(app.category_cursor(), Some(step % n));
    }
    assert_eq!(app.category_cursor(), Some(0));

    app.handle_event(AppEvent::BrowserLoaded(stub_fetch_items("Playlists")));
    press(&mut app, Key::Right);
    assert_eq!(app.focus(), Focus::Browser);
    for _ in 0..3 {
        press(&mut app, Key::Char('j'));
    }
    assert_eq!(app.item_cursor(), Some(0));
}

#[test]
fn moves_on_empty_pane_do_nothing() {
    let mut app = App::new();
    press(&mut app, Key::Down);
    press(&mut app, Key::Up);
    assert_eq!(app.item_cursor(), None);
    press(&mut app, Key::Right);
    press(&mut app, Key::Down);
    assert_eq!(app.song_cursor(), None);
}

#[test]
fn activate_on_tab_fetches_selected_category() {
    let mut app = App::new();
    press(&mut app, Key::Left);
    press(&mut app, Key::Down);
    press(&mut app, Key::Down);
    assert_eq!(app.category_cursor(), Some(2));
    let mut fetches = Vec::new();
    let action = press(&mut app, Key::Enter);
    if let Action::FetchItems(cat) = &action {
        fetches.push(cat.clone());
    }
    assert_eq!(fetches, vec!["Albums".to_string()]);
    assert_eq!(app.focus(), Focus::Browser);
    assert!(app.is_loading());
    let result = stub_fetch_items(&fetches[0]);
    assert_eq!(app.handle_event(AppEvent::BrowserLoaded(result)), Action::Continue);
    assert_eq!(app.items().len(), 3);
    assert_eq!(app.items()[0].name, "One");
    assert_eq!(app.items()[2].id, 3);
    assert_eq!(app.item_cursor(), Some(0));
    assert!(!app.is_loading());
}

#[test]
fn empty_items_leave_cursor_unset() {
    let mut app = App::new();
    app.handle_event(AppEvent::BrowserLoaded(stub_fetch_items("Playlists")));
    press(&mut app, Key::Down);
    assert_eq!(app.item_cursor(), Some(1));
    app.handle_event(AppEvent::BrowserLoaded(Ok(vec![])));
    assert!(app.items().is_empty());
    assert_eq!(app.item_cursor(), None);
    assert_eq!(press(&mut app, Key::Enter), Action::Continue);
    assert_eq!(app.focus(), Focus::Browser);
    assert!(!app.is_loading());
}

#[test]
fn fetch_error_keeps_items() {
    let mut app = App::new();
    app.handle_event(AppEvent::BrowserLoaded(stub_fetch_items("Playlists")));
    press(&mut app, Key::Down);
    press(&mut app, Key::Left);
    let action = press(&mut app, Key::Enter);
    assert_eq!(action, Action::FetchItems("Playlists".to_string()));
    assert!(app.is_loading());
    let err = FetchError { message: "connection refused".to_string() };
    let action = app.handle_event(AppEvent::BrowserLoaded(Err(err.clone())));
    assert_eq!(action, Action::ReportError(err));
    assert_eq!(app.items().len(), 3);
    assert_eq!(app.item_cursor(), Some(1));
    assert!(!app.is_loading());
}

#[test]
fn fetch_error_keeps_songs() {
    let mut app = App::new();
    app.handle_event(AppEvent::BrowserLoaded(stub_fetch_items("Playlists")));
    app.handle_event(AppEvent::SongsLoaded(Ok(vec![
        song("a", "A", "X", "1:00"),
        song("b", "B", "Y", "2:00"),
    ])));
    let action = press(&mut app, Key::Enter);
    assert_eq!(action, Action::FetchSongs(1));
    press(&mut app, Key::Down);
    assert_eq!(app.song_cursor(), Some(1));
    let err = FetchError { message: "bad json".to_string() };
    let action = app.handle_event(AppEvent::SongsLoaded(Err(err.clone())));
    assert_eq!(action, Action::ReportError(err));
    assert_eq!(app.songs().len(), 2);
    assert_eq!(app.songs()[1].title, "B");
    assert_eq!(app.song_cursor(), Some(1));
    assert!(!app.is_loading());
}

#[test]
fn focus_adjacency() {
    let mut app = App::new();
    press(&mut app, Key::Right);
    assert_eq!(app.focus(), Focus::Content);
    press(&mut app, Key::Char('l'));
    assert_eq!(app.focus(), Focus::Content);
    press(&mut app, Key::Left);
    assert_eq!(app.focus(), Focus::Browser);
    press(&mut app, Key::Char('h'));
    assert_eq!(app.focus(), Focus::Tab);
    press(&mut app, Key::Left);
    assert_eq!(app.focus(), Focus::Tab);
    press(&mut app, Key::Right);
    assert_eq!(app.focus(), Focus::Browser);
}

#[test]
fn content_activate_is_noop() {
    let mut app = App::new();
    app.handle_event(AppEvent::SongsLoaded(Ok(vec![song("a", "A", "X", "1:00")])));
    press(&mut app, Key::Right);
    assert_eq!(press(&mut app, Key::Enter), Action::Continue);
    assert_eq!(app.focus(), Focus::Content);
    assert!(!app.is_loading());
}

#[test]
fn end_to_end_scenario() {
    let mut app = App::new();
    assert_eq!(press(&mut app, Key::Left), Action::Continue);
    assert_eq!(app.focus(), Focus::Tab);
    assert_eq!(app.category_cursor(), Some(0));
    let action = press(&mut app, Key::Enter);
    assert_eq!(action, Action::FetchItems("Playlists".to_string()));
    app.handle_event(AppEvent::BrowserLoaded(Ok(vec![item(1, "My Mix")])));
    assert_eq!(app.focus(), Focus::Browser);
    assert_eq!(app.items().len(), 1);
    assert_eq!(app.items()[0].name, "My Mix");
    assert_eq!(app.item_cursor(), Some(0));
    let action = press(&mut app, Key::Enter);
    assert_eq!(action, Action::FetchSongs(1));
    app.handle_event(AppEvent::SongsLoaded(Ok(vec![song("s1", "Song A", "Artist X", "3:21")])));
    assert_eq!(app.focus(), Focus::Content);
    assert_eq!(app.songs(), &vec![song("s1", "Song A", "Artist X", "3:21")]);
    assert_eq!(app.song_cursor(), Some(0));
    assert!(!app.is_loading());
}

#[test]
fn idle_ticks_change_nothing() {
    let mut app = App::new();
    app.handle_event(AppEvent::BrowserLoaded(stub_fetch_items("Playlists")));
    press(&mut app, Key::Down);
    let ticks_per_second = 1000 / POLL_TIMEOUT_MS;
    assert!(ticks_per_second >= 3);
    for _ in 0..ticks_per_second {
        let ev = event_of_poll(Polled::Timeout).unwrap();
        assert_eq!(app.handle_event(ev), Action::Continue);
    }
    assert_eq!(app.focus(), Focus::Browser);
    assert_eq!(app.items().len(), 3);
    assert_eq!(app.item_cursor(), Some(1));
    assert_eq!(app.category_cursor(), Some(0));
    assert_eq!(app.song_cursor(), None);
    assert!(!app.is_loading());
}

#[test]
fn quit_key_ends_loop() {
    let mut app = App::new();
    assert_eq!(press(&mut app, Key::Char('q')), Action::Quit);
    assert_eq!(app.focus(), Focus::Browser);
}

#[test]
fn key_bindings() {
    assert_eq!(command_of(Key::Char('q')), Some(Command::Quit));
    assert_eq!(command_of(Key::Down), Some(Command::MoveNext));
    assert_eq!(command_of(Key::Char('j')), Some(Command::MoveNext));
    assert_eq!(command_of(Key::Up), Some(Command::MovePrev));
    assert_eq!(command_of(Key::Char('k')), Some(Command::MovePrev));
    assert_eq!(command_of(Key::Right), Some(Command::MoveRight));
    assert_eq!(command_of(Key::Char('l')), Some(Command::MoveRight));
    assert_eq!(command_of(Key::Left), Some(Command::MoveLeft));
    assert_eq!(command_of(Key::Char('h')), Some(Command::MoveLeft));
    assert_eq!(command_of(Key::Enter), Some(Command::Activate));
    assert_eq!(command_of(Key::Char('x')), None);
    assert_eq!(command_of(Key::Other), None);
}

#[test]
fn unbound_key_changes_nothing() {
    let mut app = App::new();
    assert_eq!(press(&mut app, Key::Char('z')), Action::Continue);
    assert_eq!(press(&mut app, Key::Other), Action::Continue);
    assert_eq!(app.focus(), Focus::Browser);
}

#[test]
fn poll_outcomes() {
    assert!(matches!(event_of_poll(Polled::Timeout), Some(AppEvent::Tick)));
    assert!(matches!(event_of_poll(Polled::KeyPress(Key::Enter)), Some(AppEvent::Input(Key::Enter))));
    assert!(event_of_poll(Polled::Other).is_none());
}

#[test]
fn endpoints_ignore_arguments() {
    assert_eq!(items_endpoint("Playlists"), "http://localhost:8080/playlists");
    assert_eq!(items_endpoint("Albums"), "http://localhost:8080/playlists");
    assert_eq!(songs_endpoint(1), "http://localhost:8080/songs");
    assert_eq!(songs_endpoint(42), "http://localhost:8080/songs");
}
