use crate::keys::{command_of, key_command, Command, Key};
use crate::nav::{wrap_step, wrapped_index};
use crate::types::{CategoryItem, FetchError, Focus, Song};
use vstd::prelude::*;

verus! {

/// An event of the merged stream that the dispatch loop consumes.
pub enum AppEvent {
    Input(Key),
    BrowserLoaded(Result<Vec<CategoryItem>, FetchError>),
    SongsLoaded(Result<Vec<Song>, FetchError>),
    Tick,
}

/// What the dispatch loop does after an event has been applied.
#[derive(Clone, Debug, PartialEq, Eq)]
pub enum Action {
    /// Redraw and wait for the next event.
    Continue,
    /// End the loop.
    Quit,
    /// Redraw, and fetch the items of this category in the background.
    FetchItems(String),
    /// Redraw, and fetch the songs of the item with this id in the background.
    FetchSongs(i64),
    /// Redraw, and report a failed fetch.
    ReportError(FetchError),
}

/// The state of the application, as the contracts see it.
pub struct AppView {
    pub focus: Focus,
    pub categories: Seq<String>,
    pub items: Seq<CategoryItem>,
    pub songs: Seq<Song>,
    pub cat_cursor: Option<usize>,
    pub item_cursor: Option<usize>,
    pub song_cursor: Option<usize>,
    pub loading: bool,
}

/// A cursor is set exactly when its collection is non-empty, and then points
/// inside it.
pub open spec fn cursor_fits(cursor: Option<usize>, len: nat) -> bool {
    match cursor {
        Some(i) => i < len,
        None => len == 0,
    }
}

/// The cursor after a collection of length `len` has been replaced.
pub open spec fn reset_cursor(len: nat) -> Option<usize> {
    if len > 0 {
        Some(0usize)
    } else {
        None
    }
}

/// The cursor moved by `d` over a collection of length `len`; unchanged when
/// the collection is empty.
pub open spec fn moved_cursor(cursor: Option<usize>, len: nat, d: int) -> Option<usize> {
    if len == 0 {
        cursor
    } else {
        let i = match cursor {
            Some(i) => i as int,
            None => 0,
        };
        Some(wrap_step(i, len as int, d) as usize)
    }
}

/// The pane to the right of `f`; the song pane is the last.
pub open spec fn focus_right(f: Focus) -> Focus {
    match f {
        Focus::Tab => Focus::Browser,
        Focus::Browser => Focus::Content,
        Focus::Content => Focus::Content,
    }
}

/// The pane to the left of `f`; the category pane is the first.
pub open spec fn focus_left(f: Focus) -> Focus {
    match f {
        Focus::Tab => Focus::Tab,
        Focus::Browser => Focus::Tab,
        Focus::Content => Focus::Browser,
    }
}

/// The names of the categories that the application starts with.
pub open spec fn default_categories() -> Seq<Seq<char>> {
    seq!["Playlists"@, "Artists"@, "Albums"@, "Provider"@]
}

impl AppView {
    /// Each collection fits in memory, and each cursor fits its collection.
    pub open spec fn wf(self) -> bool {
        &&& self.categories.len() <= usize::MAX
        &&& self.items.len() <= usize::MAX
        &&& self.songs.len() <= usize::MAX
        &&& cursor_fits(self.cat_cursor, self.categories.len())
        &&& cursor_fits(self.item_cursor, self.items.len())
        &&& cursor_fits(self.song_cursor, self.songs.len())
    }

    /// The state right after start-up.
    pub open spec fn is_initial(self) -> bool {
        &&& self.focus == Focus::Browser
        &&& self.categories.len() == default_categories().len()
        &&& forall|k: int|
            0 <= k < self.categories.len() ==> #[trigger] self.categories[k]@
                == default_categories()[k]
        &&& self.items.len() == 0
        &&& self.songs.len() == 0
        &&& self.cat_cursor == Some(0usize)
        &&& self.item_cursor is None
        &&& self.song_cursor is None
        &&& !self.loading
    }

    /// The length of the collection shown in the focused pane.
    pub open spec fn focused_len(self) -> nat {
        match self.focus {
            Focus::Tab => self.categories.len(),
            Focus::Browser => self.items.len(),
            Focus::Content => self.songs.len(),
        }
    }

    /// The cursor of the focused pane.
    pub open spec fn focused_cursor(self) -> Option<usize> {
        match self.focus {
            Focus::Tab => self.cat_cursor,
            Focus::Browser => self.item_cursor,
            Focus::Content => self.song_cursor,
        }
    }

    /// The state after the focused pane's cursor has moved by `d`.
    pub open spec fn moved(self, d: int) -> AppView {
        match self.focus {
            Focus::Tab => AppView {
                cat_cursor: moved_cursor(self.cat_cursor, self.categories.len(), d),
                ..self
            },
            Focus::Browser => AppView {
                item_cursor: moved_cursor(self.item_cursor, self.items.len(), d),
                ..self
            },
            Focus::Content => AppView {
                song_cursor: moved_cursor(self.song_cursor, self.songs.len(), d),
                ..self
            },
        }
    }

    /// The state after an activation key: a selected category or item
    /// starts a fetch and moves the focus one pane to the right.
    pub open spec fn activated(self) -> AppView {
        match self.focus {
            Focus::Tab => match self.cat_cursor {
                Some(i) if i < self.categories.len() => AppView {
                    loading: true,
                    focus: Focus::Browser,
                    ..self
                },
                _ => self,
            },
            Focus::Browser => match self.item_cursor {
                Some(i) if i < self.items.len() => AppView {
                    loading: true,
                    focus: Focus::Content,
                    ..self
                },
                _ => self,
            },
            Focus::Content => self,
        }
    }

    /// The fetch that an activation key starts, if any.
    pub open spec fn activation_action(self) -> Action {
        match self.focus {
            Focus::Tab => match self.cat_cursor {
                Some(i) if i < self.categories.len() => Action::FetchItems(self.categories[i as int]),
                _ => Action::Continue,
            },
            Focus::Browser => match self.item_cursor {
                Some(i) if i < self.items.len() => Action::FetchSongs(self.items[i as int].id),
                _ => Action::Continue,
            },
            Focus::Content => Action::Continue,
        }
    }

    /// The state after one command.
    pub open spec fn after_command(self, c: Command) -> AppView {
        match c {
            Command::Quit => self,
            Command::MoveNext => self.moved(1),
            Command::MovePrev => self.moved(-1),
            Command::MoveRight => AppView { focus: focus_right(self.focus), ..self },
            Command::MoveLeft => AppView { focus: focus_left(self.focus), ..self },
            Command::Activate => self.activated(),
        }
    }

    /// What the dispatch loop does after one command.
    pub open spec fn command_action(self, c: Command) -> Action {
        match c {
            Command::Quit => Action::Quit,
            Command::Activate => self.activation_action(),
            _ => Action::Continue,
        }
    }

    /// The state once fetched items have arrived.
    pub open spec fn items_loaded(self, items: Seq<CategoryItem>) -> AppView {
        AppView { items: items, item_cursor: reset_cursor(items.len()), loading: false, ..self }
    }

    /// The state once fetched songs have arrived.
    pub open spec fn songs_loaded(self, songs: Seq<Song>) -> AppView {
        AppView { songs: songs, song_cursor: reset_cursor(songs.len()), loading: false, ..self }
    }

    /// The state once a fetch has failed: the data shown stays as it was.
    pub open spec fn fetch_failed(self) -> AppView {
        AppView { loading: false, ..self }
    }

    /// The state after one event of the stream.
    pub open spec fn after_event(self, e: AppEvent) -> AppView {
        match e {
            AppEvent::Input(key) => match key_command(key) {
                Some(c) => self.after_command(c),
                None => self,
            },
            AppEvent::BrowserLoaded(Ok(items)) => self.items_loaded(items@),
            AppEvent::SongsLoaded(Ok(songs)) => self.songs_loaded(songs@),
            AppEvent::BrowserLoaded(Err(_)) | AppEvent::SongsLoaded(Err(_)) => self.fetch_failed(),
            AppEvent::Tick => self,
        }
    }

    /// What the dispatch loop does after one event of the stream.
    pub open spec fn event_action(self, e: AppEvent) -> Action {
        match e {
            AppEvent::Input(key) => match key_command(key) {
                Some(c) => self.command_action(c),
                None => Action::Continue,
            },
            AppEvent::BrowserLoaded(Err(err)) => Action::ReportError(err),
            AppEvent::SongsLoaded(Err(err)) => Action::ReportError(err),
            _ => Action::Continue,
        }
    }
}

/// The navigation state: focus, the three collections and their cursors,
/// and whether a fetch is outstanding.
pub struct App {
    focus: Focus,
    categories: Vec<String>,
    items: Vec<CategoryItem>,
    songs: Vec<Song>,
    cat_state: Option<usize>,
    item_state: Option<usize>,
    song_state: Option<usize>,
    is_loading: bool,
}

impl View for App {
    type V = AppView;

    closed spec fn view(&self) -> AppView {
        AppView {
            focus: self.focus,
            categories: self.categories@,
            items: self.items@,
            songs: self.songs@,
            cat_cursor: self.cat_state,
            item_cursor: self.item_state,
            song_cursor: self.song_state,
            loading: self.is_loading,
        }
    }
}

impl App {
    pub fn new() -> (r: App)
        ensures
            r@.is_initial(),
            r@.wf(),
    {
        let categories: Vec<String> = vec![
            "Playlists".to_owned(),
            "Artists".to_owned(),
            "Albums".to_owned(),
            "Provider".to_owned(),
        ];
        let r = App {
            focus: Focus::Browser,
            categories,
            items: Vec::new(),
            songs: Vec::new(),
            cat_state: Some(0),
            item_state: None,
            song_state: None,
            is_loading: false,
        };
        assert(r@.categories.len() == 4);
        assert(forall|k: int|
            0 <= k < r@.categories.len() ==> #[trigger] r@.categories[k]@
                == default_categories()[k]);
        r
    }

    /// Moves the focused pane's cursor one place (`delta` 1 or -1), wrapping
    /// around; nothing happens when that pane is empty.
    pub fn move_selection(&mut self, delta: i32)
        requires
            old(self)@.wf(),
            delta == 1 || delta == -1,
        ensures
            final(self)@ == old(self)@.moved(delta as int),
            final(self)@.wf(),
    {
        let forward = delta == 1;
        match self.focus {
            Focus::Tab => {
                let len = self.categories.len();
                if len == 0 {
                    return;
                }
                let new_idx = wrapped_index(self.cat_state, len, forward);
                self.cat_state = Some(new_idx);
            },
            Focus::Browser => {
                let len = self.items.len();
                if len == 0 {
                    return;
                }
                let new_idx = wrapped_index(self.item_state, len, forward);
                self.item_state = Some(new_idx);
            },
            Focus::Content => {
                let len = self.songs.len();
                if len == 0 {
                    return;
                }
                let new_idx = wrapped_index(self.song_state, len, forward);
                self.song_state = Some(new_idx);
            },
        }
    }

    /// Activates the focused pane's selection: a category starts a fetch of
    /// its items, an item a fetch of its songs; the song pane has nothing to
    /// activate.
    pub fn activate(&mut self) -> (r: Action)
        requires
            old(self)@.wf(),
        ensures
            final(self)@ == old(self)@.activated(),
            r == old(self)@.activation_action(),
            final(self)@.wf(),
    {
        match self.focus {
            Focus::Tab => {
                if let Some(i) = self.cat_state {
                    if i < self.categories.len() {
                        let cat = self.categories[i].clone();
                        self.is_loading = true;
                        self.focus = Focus::Browser;
                        return Action::FetchItems(cat);
                    }
                }
                Action::Continue
            },
            Focus::Browser => {
                if let Some(i) = self.item_state {
                    if i < self.items.len() {
                        let item_id = self.items[i].id;
                        self.is_loading = true;
                        self.focus = Focus::Content;
                        return Action::FetchSongs(item_id);
                    }
                }
                Action::Continue
            },
            Focus::Content => Action::Continue,
        }
    }

    /// Applies one command and says what the dispatch loop does next.
    pub fn apply_command(&mut self, c: Command) -> (r: Action)
        requires
            old(self)@.wf(),
        ensures
            final(self)@ == old(self)@.after_command(c),
            r == old(self)@.command_action(c),
            final(self)@.wf(),
    {
        match c {
            Command::Quit => Action::Quit,
            Command::MoveNext => {
                self.move_selection(1);
                Action::Continue
            },
            Command::MovePrev => {
                self.move_selection(-1);
                Action::Continue
            },
            Command::MoveRight => {
                self.focus = match self.focus {
                    Focus::Tab => Focus::Browser,
                    Focus::Browser => Focus::Content,
                    Focus::Content => Focus::Content,
                };
                Action::Continue
            },
            Command::MoveLeft => {
                self.focus = match self.focus {
                    Focus::Tab => Focus::Tab,
                    Focus::Browser => Focus::Tab,
                    Focus::Content => Focus::Browser,
                };
                Action::Continue
            },
            Command::Activate => self.activate(),
        }
    }

    /// Takes the outcome of a fetch of items: on success the items are
    /// replaced and their cursor reset; on failure they stay as they were.
    pub fn apply_items(&mut self, result: Result<Vec<CategoryItem>, FetchError>) -> (r: Action)
        requires
            old(self)@.wf(),
        ensures
            final(self)@ == old(self)@.after_event(AppEvent::BrowserLoaded(result)),
            r == old(self)@.event_action(AppEvent::BrowserLoaded(result)),
            final(self)@.wf(),
    {
        self.is_loading = false;
        match result {
            Ok(d) => {
                self.item_state = if d.len() > 0 { Some(0) } else { None };
                self.items = d;
                Action::Continue
            },
            Err(err) => Action::ReportError(err),
        }
    }

    /// Takes the outcome of a fetch of songs: on success the songs are
    /// replaced and their cursor reset; on failure they stay as they were.
    pub fn apply_songs(&mut self, result: Result<Vec<Song>, FetchError>) -> (r: Action)
        requires
            old(self)@.wf(),
        ensures
            final(self)@ == old(self)@.after_event(AppEvent::SongsLoaded(result)),
            r == old(self)@.event_action(AppEvent::SongsLoaded(result)),
            final(self)@.wf(),
    {
        self.is_loading = false;
        match result {
            Ok(d) => {
                self.song_state = if d.len() > 0 { Some(0) } else { None };
                self.songs = d;
                Action::Continue
            },
            Err(err) => Action::ReportError(err),
        }
    }

    /// Applies one event of the merged stream and says what the dispatch loop
    /// does next.
    pub fn handle_event(&mut self, event: AppEvent) -> (r: Action)
        requires
            old(self)@.wf(),
        ensures
            final(self)@ == old(self)@.after_event(event),
            r == old(self)@.event_action(event),
            final(self)@.wf(),
    {
        match event {
            AppEvent::Input(key) => match command_of(key) {
                Some(c) => self.apply_command(c),
                None => Action::Continue,
            },
            AppEvent::BrowserLoaded(result) => self.apply_items(result),
            AppEvent::SongsLoaded(result) => self.apply_songs(result),
            AppEvent::Tick => Action::Continue,
        }
    }

    pub fn focus(&self) -> (r: Focus)
        ensures
            r == self@.focus,
    {
        self.focus
    }

    pub fn categories(&self) -> (r: &Vec<String>)
        ensures
            r@ == self@.categories,
    {
        &self.categories
    }

    pub fn items(&self) -> (r: &Vec<CategoryItem>)
        ensures
            r@ == self@.items,
    {
        &self.items
    }

    pub fn songs(&self) -> (r: &Vec<Song>)
        ensures
            r@ == self@.songs,
    {
        &self.songs
    }

    pub fn category_cursor(&self) -> (r: Option<usize>)
        ensures
            r == self@.cat_cursor,
    {
        self.cat_state
    }

    pub fn item_cursor(&self) -> (r: Option<usize>)
        ensures
            r == self@.item_cursor,
    {
        self.item_state
    }

    pub fn song_cursor(&self) -> (r: Option<usize>)
        ensures
            r == self@.song_cursor,
    {
        self.song_state
    }

    pub fn is_loading(&self) -> (r: bool)
        ensures
            r == self@.loading,
    {
        self.is_loading
    }

    /// The fetch issued at start-up: the items of the selected category.
    pub fn initial_request(&self) -> (r: Action)
        requires
            self@.wf(),
        ensures
            r == (match self@.cat_cursor {
                Some(i) => Action::FetchItems(self@.categories[i as int]),
                None => Action::Continue,
            }),
    {
        match self.cat_state {
            Some(i) => Action::FetchItems(self.categories[i].clone()),
            None => Action::Continue,
        }
    }
}

} // verus!
