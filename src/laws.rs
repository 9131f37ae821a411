use crate::keys::{key_command, Command, Key};
use crate::nav::lemma_wrap_step_unit;
use crate::state::{reset_cursor, Action, AppEvent, AppView};
use crate::types::{CategoryItem, FetchError, Focus, Song};
use vstd::prelude::*;

verus! {

/// The state after a run of commands, applied in order.
pub open spec fn after_commands(v: AppView, cs: Seq<Command>) -> AppView
    decreases cs.len(),
{
    if cs.len() == 0 {
        v
    } else {
        after_commands(v, cs.drop_last()).after_command(cs.last())
    }
}

/// The state after a run of events, applied in order.
pub open spec fn after_events(v: AppView, es: Seq<AppEvent>) -> AppView
    decreases es.len(),
{
    if es.len() == 0 {
        v
    } else {
        after_events(v, es.drop_last()).after_event(es.last())
    }
}

pub open spec fn is_move(c: Command) -> bool {
    c == Command::MoveNext || c == Command::MovePrev
}

/// `n` presses of move-next.
pub open spec fn nexts(n: nat) -> Seq<Command> {
    Seq::new(n, |_k: int| Command::MoveNext)
}

/// `n` ticks.
pub open spec fn ticks(n: nat) -> Seq<AppEvent> {
    Seq::new(n, |_k: int| AppEvent::Tick)
}

pub open spec fn cursor_within(c: Option<usize>, n: nat) -> bool {
    c matches Some(i) && i < n
}

/// The place of a pane in the row Tab, Browser, Content.
pub open spec fn focus_rank(f: Focus) -> int {
    match f {
        Focus::Tab => 0,
        Focus::Browser => 1,
        Focus::Content => 2,
    }
}

/// The state with the focused pane's cursor replaced.
pub open spec fn with_focused_cursor(v: AppView, c: Option<usize>) -> AppView {
    match v.focus {
        Focus::Tab => AppView { cat_cursor: c, ..v },
        Focus::Browser => AppView { item_cursor: c, ..v },
        Focus::Content => AppView { song_cursor: c, ..v },
    }
}

/// Everything but the cursor of the focused pane is equal.
pub open spec fn same_but_focused_cursor(v: AppView, w: AppView) -> bool {
    &&& w.focus == v.focus
    &&& w.categories == v.categories
    &&& w.items == v.items
    &&& w.songs == v.songs
    &&& w.loading == v.loading
    &&& (w.focus != Focus::Tab ==> w.cat_cursor == v.cat_cursor)
    &&& (w.focus != Focus::Browser ==> w.item_cursor == v.item_cursor)
    &&& (w.focus != Focus::Content ==> w.song_cursor == v.song_cursor)
}

/// A single move keeps the state well formed and touches only the focused
/// pane's cursor.
pub proof fn lemma_move_frame(v: AppView, c: Command)
    requires
        v.wf(),
        is_move(c),
    ensures
        v.after_command(c).wf(),
        same_but_focused_cursor(v, v.after_command(c)),
{
    let d: int = if c == Command::MoveNext { 1 } else { -1 };
    let n = v.focused_len() as int;
    if n > 0 {
        let i: int = match v.focused_cursor() {
            Some(i) => i as int,
            None => 0,
        };
        lemma_wrap_step_unit(i, n, d);
    }
}

/// A run of moves keeps the state well formed and touches only the focused
/// pane's cursor.
pub proof fn lemma_moves_frame(v: AppView, cs: Seq<Command>)
    requires
        v.wf(),
        forall|k: int| 0 <= k < cs.len() ==> is_move(#[trigger] cs[k]),
    ensures
        after_commands(v, cs).wf(),
        same_but_focused_cursor(v, after_commands(v, cs)),
    decreases cs.len(),
{
    if cs.len() > 0 {
        let prev = cs.drop_last();
        assert(forall|k: int| 0 <= k < prev.len() ==> prev[k] == cs[k]);
        lemma_moves_frame(v, prev);
        lemma_move_frame(after_commands(v, prev), cs.last());
    }
}

/// Wrap-around law: over a non-empty focused collection, any run of move-next
/// and move-prev presses keeps its cursor set and inside the collection at
/// every step.
pub proof fn lemma_moves_stay_in_bounds(v: AppView, cs: Seq<Command>)
    requires
        v.wf(),
        v.focused_len() > 0,
        forall|k: int| 0 <= k < cs.len() ==> is_move(#[trigger] cs[k]),
    ensures
        forall|k: int|
            0 <= k <= cs.len() ==> cursor_within(
                #[trigger] after_commands(v, cs.take(k)).focused_cursor(),
                v.focused_len(),
            ),
{
    assert forall|k: int| 0 <= k <= cs.len() implies cursor_within(
        #[trigger] after_commands(v, cs.take(k)).focused_cursor(),
        v.focused_len(),
    ) by {
        let p = cs.take(k);
        assert(forall|j: int| 0 <= j < p.len() ==> p[j] == cs[j]);
        lemma_moves_frame(v, p);
    }
}

/// After `k` presses of move-next from cursor 0, with `k` short of the
/// length, the cursor stands at `k`.
proof fn lemma_nexts_count(v: AppView, k: nat)
    requires
        v.wf(),
        k < v.focused_len(),
        v.focused_cursor() == Some(0usize),
    ensures
        after_commands(v, nexts(k)) == with_focused_cursor(v, Some(k as usize)),
    decreases k,
{
    if k > 0 {
        assert(nexts(k).drop_last() =~= nexts((k - 1) as nat));
        lemma_nexts_count(v, (k - 1) as nat);
        lemma_wrap_step_unit(k - 1, v.focused_len() as int, 1);
    }
}

/// Full cycle: from cursor 0, `n` presses of move-next over a focused
/// collection of length `n` bring the state back to where it started.
pub proof fn lemma_full_cycle(v: AppView)
    requires
        v.wf(),
        v.focused_len() > 0,
        v.focused_cursor() == Some(0usize),
    ensures
        after_commands(v, nexts(v.focused_len())) == v,
{
    let n = v.focused_len();
    assert(nexts(n).drop_last() =~= nexts((n - 1) as nat));
    lemma_nexts_count(v, (n - 1) as nat);
    lemma_wrap_step_unit(n - 1, n as int, 1);
}

/// Activating the category pane with its cursor at `k` issues one fetch, of
/// the category at `k`, and moves the focus to the item pane; items that then
/// arrive replace the old ones, the item cursor is reset to 0 (unset if none
/// arrived) and the loading flag is cleared.
pub proof fn lemma_activate_category(v: AppView, k: usize, items: Vec<CategoryItem>)
    requires
        v.wf(),
        v.focus == Focus::Tab,
        v.cat_cursor == Some(k),
    ensures
        v.event_action(AppEvent::Input(Key::Enter)) == Action::FetchItems(v.categories[k as int]),
        v.after_event(AppEvent::Input(Key::Enter)).focus == Focus::Browser,
        v.after_event(AppEvent::Input(Key::Enter)).loading,
        ({
            let w = v.after_event(AppEvent::Input(Key::Enter)).after_event(
                AppEvent::BrowserLoaded(Ok(items)),
            );
            &&& w.items == items@
            &&& w.item_cursor == reset_cursor(items@.len())
            &&& items@.len() > 0 ==> w.item_cursor == Some(0usize)
            &&& !w.loading
            &&& w.focus == Focus::Browser
            &&& w.categories == v.categories
            &&& w.cat_cursor == v.cat_cursor
            &&& w.songs == v.songs
            &&& w.song_cursor == v.song_cursor
        }),
{
}

/// Only the activation key issues a fetch: every other key, a tick or a
/// fetch completion issues none.
pub proof fn lemma_fetch_only_on_activate(v: AppView, e: AppEvent)
    ensures
        (v.event_action(e) is FetchItems || v.event_action(e) is FetchSongs) ==> (e matches AppEvent::Input(k)
            && key_command(k) == Some(Command::Activate)),
{
}

/// The collections and cursors of two states are equal.
pub open spec fn same_data(v: AppView, w: AppView) -> bool {
    &&& w.categories == v.categories
    &&& w.items == v.items
    &&& w.songs == v.songs
    &&& w.cat_cursor == v.cat_cursor
    &&& w.item_cursor == v.item_cursor
    &&& w.song_cursor == v.song_cursor
}

/// A failed fetch, after the activation that issued it, leaves the
/// collections and cursors as they were before the activation, reports the
/// error and clears the loading flag.
pub proof fn lemma_fetch_error_keeps_data(v: AppView, e: FetchError)
    requires
        v.wf(),
    ensures
        ({
            let u = v.after_event(AppEvent::Input(Key::Enter));
            let w = u.after_event(AppEvent::BrowserLoaded(Err(e)));
            &&& same_data(v, w)
            &&& !w.loading
            &&& u.event_action(AppEvent::BrowserLoaded(Err(e))) == Action::ReportError(e)
        }),
        ({
            let u = v.after_event(AppEvent::Input(Key::Enter));
            let w = u.after_event(AppEvent::SongsLoaded(Err(e)));
            &&& same_data(v, w)
            &&& !w.loading
            &&& u.event_action(AppEvent::SongsLoaded(Err(e))) == Action::ReportError(e)
        }),
{
}

/// Focus moves only between adjacent panes of Tab, Browser, Content: no event
/// takes it more than one pane away, move-right from Content and move-left
/// from Tab leave it where it is.
pub proof fn lemma_focus_adjacency(v: AppView, e: AppEvent)
    ensures
        -1 <= focus_rank(v.after_event(e).focus) - focus_rank(v.focus) <= 1,
        v.focus == Focus::Content ==> v.after_command(Command::MoveRight).focus == Focus::Content,
        v.focus == Focus::Tab ==> v.after_command(Command::MoveLeft).focus == Focus::Tab,
{
}

/// Idle: any number of ticks leaves the state as it was, and each one asks
/// only for a redraw.
pub proof fn lemma_idle_ticks(v: AppView, n: nat)
    ensures
        after_events(v, ticks(n)) == v,
        forall|k: nat| k < n ==> #[trigger] after_events(v, ticks(k)).event_action(AppEvent::Tick) == Action::Continue,
    decreases n,
{
    if n > 0 {
        assert(ticks(n).drop_last() =~= ticks((n - 1) as nat));
        lemma_idle_ticks(v, (n - 1) as nat);
    }
}

} // verus!
