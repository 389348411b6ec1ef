//! Cursor movement and view switching in the main panel and the sidebar.
use vstd::prelude::*;
use crate::app::{App, MainView, SidebarItem};
use crate::api::Track;
use crate::utils::{main_list_len, spec_main_list_len};

verus! {

/// Lines of the Help panel's tallest column.
pub const HELP_CONTENT_LINES: u16 = 18;

/// `a - b`, or 0 when `b` is larger.
pub open spec fn sat_sub(a: int, b: int) -> int {
    if a > b { a - b } else { 0 }
}

/// The furthest the Help panel scrolls: the lines that do not fit.
pub open spec fn spec_help_max_scroll(app: App) -> u16 {
    sat_sub(HELP_CONTENT_LINES as int, app.help_visible_lines as int) as u16
}

/// How far the Help panel can scroll.
pub fn help_max_scroll(app: &App) -> (r: u16)
    ensures
        r == spec_help_max_scroll(*app),
{
    if HELP_CONTENT_LINES > app.help_visible_lines {
        HELP_CONTENT_LINES - app.help_visible_lines
    } else {
        0
    }
}

/// The position state that the movement keys change.
#[derive(Debug, Clone, Copy, PartialEq, Eq, Structural)]
pub struct Cursor {
    pub main_selected: usize,
    pub sidebar_selected: usize,
    pub help_scroll: u16,
    pub players_focus_global: bool,
    pub search_input_active: bool,
    pub app_search_input_active: bool,
}

/// The cursor of a state.
pub open spec fn cursor_of(app: App) -> Cursor {
    Cursor {
        main_selected: app.main_selected,
        sidebar_selected: app.sidebar_selected,
        help_scroll: app.help_scroll,
        players_focus_global: app.players_focus_global,
        search_input_active: app.search_input_active,
        app_search_input_active: app.app_search_input_active,
    }
}

/// The state with its cursor replaced.
pub open spec fn with_cursor(app: App, c: Cursor) -> App {
    App {
        main_selected: c.main_selected,
        sidebar_selected: c.sidebar_selected,
        help_scroll: c.help_scroll,
        players_focus_global: c.players_focus_global,
        search_input_active: c.search_input_active,
        app_search_input_active: c.app_search_input_active,
        ..app
    }
}

fn get_cursor(app: &App) -> (r: Cursor)
    ensures
        r == cursor_of(*app),
{
    Cursor {
        main_selected: app.main_selected,
        sidebar_selected: app.sidebar_selected,
        help_scroll: app.help_scroll,
        players_focus_global: app.players_focus_global,
        search_input_active: app.search_input_active,
        app_search_input_active: app.app_search_input_active,
    }
}

fn set_cursor(app: &mut App, c: Cursor)
    ensures
        *final(app) == with_cursor(*old(app), c),
{
    app.main_selected = c.main_selected;
    app.sidebar_selected = c.sidebar_selected;
    app.help_scroll = c.help_scroll;
    app.players_focus_global = c.players_focus_global;
    app.search_input_active = c.search_input_active;
    app.app_search_input_active = c.app_search_input_active;
}

/// The cursor after Up: one row up in full-art mode, the sidebar, or the list (never above
/// the first row); one line up in Help; in Players the first row leads to the all-players
/// row; in the search views the first row leads back into the query box.
pub open spec fn spec_nav_up(app: App) -> Cursor {
    let c = cursor_of(app);
    let ms = app.main_selected;
    if app.full_art_mode {
        Cursor { main_selected: sat_sub(ms as int, 1) as usize, ..c }
    } else if app.focus_sidebar {
        Cursor { sidebar_selected: sat_sub(app.sidebar_selected as int, 1) as usize, ..c }
    } else if app.main_view is Help {
        Cursor { help_scroll: sat_sub(app.help_scroll as int, 1) as u16, ..c }
    } else if app.main_view is Players {
        if !app.players_focus_global && ms == 0 {
            Cursor { players_focus_global: true, ..c }
        } else if !app.players_focus_global {
            Cursor { main_selected: (ms - 1) as usize, ..c }
        } else {
            c
        }
    } else if app.main_view is Search && !app.search_input_active && ms == 0 {
        Cursor { search_input_active: true, ..c }
    } else if app.main_view is AppSearch && !app.app_search_input_active && ms == 0 {
        Cursor { app_search_input_active: true, ..c }
    } else {
        Cursor { main_selected: sat_sub(ms as int, 1) as usize, ..c }
    }
}

/// The cursor after Down: one row down without passing the last row (of the queue in
/// full-art mode, of the sidebar, or of the list); one line down in Help up to its limit;
/// in Players the all-players row leads to the first player.
pub open spec fn spec_nav_down(app: App) -> Cursor {
    let c = cursor_of(app);
    let ms = app.main_selected;
    let list_max = sat_sub(spec_main_list_len(app) as int, 1);
    if app.full_art_mode {
        if ms < sat_sub(app.queue@.len() as int, 1) { Cursor { main_selected: (ms + 1) as usize, ..c } } else { c }
    } else if app.focus_sidebar {
        if app.sidebar_selected < sat_sub(app.sidebar_items@.len() as int, 1) {
            Cursor { sidebar_selected: (app.sidebar_selected + 1) as usize, ..c }
        } else {
            c
        }
    } else if app.main_view is Help {
        let up = if app.help_scroll < u16::MAX { app.help_scroll + 1 } else { u16::MAX as int };
        let max = spec_help_max_scroll(app);
        Cursor { help_scroll: (if up < max { up } else { max as int }) as u16, ..c }
    } else if app.main_view is Players && app.players_focus_global {
        Cursor { players_focus_global: false, main_selected: 0, ..c }
    } else {
        if ms < list_max { Cursor { main_selected: (ms + 1) as usize, ..c } } else { c }
    }
}

/// The cursor after Page Up: ten lines up in Help, ten rows up elsewhere; nothing while the
/// sidebar has focus.
pub open spec fn spec_page_up(app: App) -> Cursor {
    let c = cursor_of(app);
    if app.focus_sidebar {
        c
    } else if app.main_view is Help {
        Cursor { help_scroll: sat_sub(app.help_scroll as int, 10) as u16, ..c }
    } else {
        Cursor { main_selected: sat_sub(app.main_selected as int, 10) as usize, ..c }
    }
}

/// The cursor after Page Down: ten lines down in Help up to its limit, ten rows down up to the
/// last row elsewhere; nothing while the sidebar has focus.
pub open spec fn spec_page_down(app: App) -> Cursor {
    let c = cursor_of(app);
    if app.focus_sidebar {
        c
    } else if app.main_view is Help {
        let up = if app.help_scroll as int + 10 <= u16::MAX { app.help_scroll + 10 } else { u16::MAX as int };
        let max = spec_help_max_scroll(app);
        Cursor { help_scroll: (if up < max { up } else { max as int }) as u16, ..c }
    } else {
        let max = sat_sub(spec_main_list_len(app) as int, 1);
        let down = app.main_selected + 10;
        Cursor { main_selected: (if down < max { down } else { max }) as usize, ..c }
    }
}

/// The cursor after Home (`first`) or End: the top or the bottom of Help or of the list;
/// nothing while the sidebar has focus.
pub open spec fn spec_home_end(app: App, first: bool) -> Cursor {
    let c = cursor_of(app);
    if app.focus_sidebar {
        c
    } else if app.main_view is Help {
        Cursor { help_scroll: if first { 0 } else { spec_help_max_scroll(app) }, ..c }
    } else {
        Cursor { main_selected: if first { 0 } else { sat_sub(spec_main_list_len(app) as int, 1) as usize }, ..c }
    }
}

/// Moves the cursor up.
pub fn nav_up(app: &mut App)
    ensures
        *final(app) == with_cursor(*old(app), spec_nav_up(*old(app))),
{
    let c = get_cursor(app);
    let ms = app.main_selected;
    let sub1: usize = if ms > 0 { ms - 1 } else { 0 };
    let next = if app.full_art_mode {
        Cursor { main_selected: sub1, ..c }
    } else if app.focus_sidebar {
        Cursor { sidebar_selected: if app.sidebar_selected > 0 { app.sidebar_selected - 1 } else { 0 }, ..c }
    } else if matches!(app.main_view, MainView::Help) {
        Cursor { help_scroll: if app.help_scroll > 0 { app.help_scroll - 1 } else { 0 }, ..c }
    } else if matches!(app.main_view, MainView::Players) {
        if !app.players_focus_global && ms == 0 {
            Cursor { players_focus_global: true, ..c }
        } else if !app.players_focus_global {
            Cursor { main_selected: ms - 1, ..c }
        } else {
            c
        }
    } else if matches!(app.main_view, MainView::Search) && !app.search_input_active && ms == 0 {
        Cursor { search_input_active: true, ..c }
    } else if matches!(app.main_view, MainView::AppSearch { .. }) && !app.app_search_input_active && ms == 0 {
        Cursor { app_search_input_active: true, ..c }
    } else {
        Cursor { main_selected: sub1, ..c }
    };
    set_cursor(app, next);
}

/// Moves the cursor down.
pub fn nav_down(app: &mut App)
    ensures
        *final(app) == with_cursor(*old(app), spec_nav_down(*old(app))),
{
    let c = get_cursor(app);
    let ms = app.main_selected;
    let len = main_list_len(app);
    let list_max: usize = if len > 0 { len - 1 } else { 0 };
    let next = if app.full_art_mode {
        let max: usize = if app.queue.len() > 0 { app.queue.len() - 1 } else { 0 };
        if ms < max { Cursor { main_selected: ms + 1, ..c } } else { c }
    } else if app.focus_sidebar {
        let max: usize = if app.sidebar_items.len() > 0 { app.sidebar_items.len() - 1 } else { 0 };
        if app.sidebar_selected < max { Cursor { sidebar_selected: app.sidebar_selected + 1, ..c } } else { c }
    } else if matches!(app.main_view, MainView::Help) {
        let up: u16 = if app.help_scroll < u16::MAX { app.help_scroll + 1 } else { u16::MAX };
        let max = help_max_scroll(app);
        Cursor { help_scroll: if up < max { up } else { max }, ..c }
    } else if matches!(app.main_view, MainView::Players) && app.players_focus_global {
        Cursor { players_focus_global: false, main_selected: 0, ..c }
    } else {
        if ms < list_max { Cursor { main_selected: ms + 1, ..c } } else { c }
    };
    set_cursor(app, next);
}

/// Moves the cursor a page up.
pub fn page_up(app: &mut App)
    ensures
        *final(app) == with_cursor(*old(app), spec_page_up(*old(app))),
{
    let c = get_cursor(app);
    let next = if app.focus_sidebar {
        c
    } else if matches!(app.main_view, MainView::Help) {
        Cursor { help_scroll: if app.help_scroll > 10 { app.help_scroll - 10 } else { 0 }, ..c }
    } else {
        Cursor { main_selected: if app.main_selected > 10 { app.main_selected - 10 } else { 0 }, ..c }
    };
    set_cursor(app, next);
}

/// Moves the cursor a page down.
pub fn page_down(app: &mut App)
    requires
        !old(app).focus_sidebar && !(old(app).main_view is Help) ==> old(app).main_selected + 10 <= usize::MAX,
    ensures
        *final(app) == with_cursor(*old(app), spec_page_down(*old(app))),
{
    let c = get_cursor(app);
    let next = if app.focus_sidebar {
        c
    } else if matches!(app.main_view, MainView::Help) {
        let up: u16 = if app.help_scroll <= u16::MAX - 10 { app.help_scroll + 10 } else { u16::MAX };
        let max = help_max_scroll(app);
        Cursor { help_scroll: if up < max { up } else { max }, ..c }
    } else {
        let len = main_list_len(app);
        let max: usize = if len > 0 { len - 1 } else { 0 };
        let down = app.main_selected + 10;
        Cursor { main_selected: if down < max { down } else { max }, ..c }
    };
    set_cursor(app, next);
}

/// Jumps to the top (`first`) or the bottom.
pub fn home_end(app: &mut App, first: bool)
    ensures
        *final(app) == with_cursor(*old(app), spec_home_end(*old(app), first)),
{
    let c = get_cursor(app);
    let next = if app.focus_sidebar {
        c
    } else if matches!(app.main_view, MainView::Help) {
        Cursor { help_scroll: if first { 0 } else { help_max_scroll(app) }, ..c }
    } else {
        let len = main_list_len(app);
        Cursor { main_selected: if first { 0 } else if len > 0 { len - 1 } else { 0 }, ..c }
    };
    set_cursor(app, next);
}

/// Some row of `q` has title `t`.
pub open spec fn has_title(q: Seq<Track>, t: Seq<char>) -> bool {
    exists|i: int| 0 <= i < q.len() && q[i].title@ == t
}

/// The queue row of the playing track: the position the player reports when it is inside
/// the queue, else the first row with the playing title, else 0.
pub open spec fn now_playing_index_ok(app: App, r: usize) -> bool {
    match app.now_playing {
        None => r == 0,
        Some(np) => match np.playlist_cur_index {
            Some(i) if i < app.queue@.len() => r == i,
            _ => if has_title(app.queue@, np.title@) {
                &&& r < app.queue@.len()
                &&& app.queue@[r as int].title@ == np.title@
                &&& forall|j: int| 0 <= j < r ==> app.queue@[j].title@ != np.title@
            } else {
                r == 0
            },
        },
    }
}

/// The queue index of the currently playing track.
pub fn now_playing_queue_index(app: &App) -> (r: usize)
    ensures
        now_playing_index_ok(*app, r),
{
    let np = match &app.now_playing {
        Some(np) => np,
        None => {
            return 0;
        },
    };
    if let Some(idx) = np.playlist_cur_index {
        if idx < app.queue.len() {
            return idx;
        }
    }
    let mut i: usize = 0;
    while i < app.queue.len()
        invariant
            i <= app.queue@.len(),
            app.now_playing == Some(*np),
            !(np.playlist_cur_index matches Some(k) && k < app.queue@.len()),
            forall|j: int| 0 <= j < i ==> app.queue@[j].title@ != np.title@,
        decreases app.queue@.len() - i,
    {
        if crate::text::str_eq(app.queue[i].title.as_str(), np.title.as_str()) {
            return i;
        }
        i += 1;
    }
    0
}

/// Full-art mode toggled: entering saves the list position, moves focus to the main panel
/// and selects the playing track; leaving restores the saved position (once).
pub open spec fn toggle_full_art_post(old: App, new: App) -> bool {
    if !old.full_art_mode {
        exists|i: usize| now_playing_index_ok(old, i) && new == (App {
            saved_main_selected: Some(old.main_selected),
            focus_sidebar: false,
            main_selected: i,
            full_art_mode: true,
            ..old
        })
    } else {
        new == (App {
            saved_main_selected: None,
            main_selected: match old.saved_main_selected {
                Some(s) => s,
                None => old.main_selected,
            },
            full_art_mode: false,
            ..old
        })
    }
}

/// Switches full-art mode on or off.
pub fn toggle_full_art_mode(app: &mut App)
    ensures
        toggle_full_art_post(*old(app), *final(app)),
{
    if !app.full_art_mode {
        let idx = now_playing_queue_index(app);
        app.saved_main_selected = Some(app.main_selected);
        app.focus_sidebar = false;
        app.main_selected = idx;
        app.full_art_mode = true;
    } else {
        let ms = match app.saved_main_selected {
            Some(s) => s,
            None => app.main_selected,
        };
        app.saved_main_selected = None;
        app.main_selected = ms;
        app.full_art_mode = false;
    }
}

/// The state after asking to delete the selected queue row: the delete dialog opens on the
/// first option when the queue (or full-art mode) has focus, a player is active and the
/// row exists.
pub open spec fn spec_delete_request(app: App) -> App {
    let in_queue = app.main_view is Queue || app.full_art_mode;
    if in_queue && !app.focus_sidebar && app.active_player.is_some() && app.main_selected < app.queue@.len() {
        App { confirm_delete_queue_item: Some(app.main_selected), delete_queue_selected_button: 0, ..app }
    } else {
        app
    }
}

/// Opens the delete dialog for the selected queue row.
pub fn request_delete_queue_item(app: &mut App)
    ensures
        *final(app) == spec_delete_request(*old(app)),
{
    let in_queue = matches!(app.main_view, MainView::Queue) || app.full_art_mode;
    if in_queue && !app.focus_sidebar && app.active_player.is_some() && app.main_selected < app.queue.len() {
        app.confirm_delete_queue_item = Some(app.main_selected);
        app.delete_queue_selected_button = 0;
    }
}

/// The state after asking to clear the queue: the confirmation opens on OK when a player is
/// active and its queue is not empty.
pub open spec fn spec_clear_request(app: App) -> App {
    if app.active_player.is_some() && app.queue@.len() > 0 {
        App { confirm_clear_queue: true, clear_queue_selected_button: 0, ..app }
    } else {
        app
    }
}

/// Opens the clear-queue confirmation.
pub fn request_clear_queue(app: &mut App)
    ensures
        *final(app) == spec_clear_request(*old(app)),
{
    if app.active_player.is_some() && app.queue.len() > 0 {
        app.confirm_clear_queue = true;
        app.clear_queue_selected_button = 0;
    }
}

/// The state after moving focus to the sidebar (ignored in full-art mode): the inputs of
/// the search views stop taking keys.
pub open spec fn spec_focus_sidebar(app: App) -> App {
    if app.full_art_mode {
        app
    } else {
        App { focus_sidebar: true, players_focus_global: false, search_input_active: false, app_search_input_active: false, ..app }
    }
}

/// Gives the sidebar the focus.
pub fn focus_sidebar(app: &mut App)
    ensures
        *final(app) == spec_focus_sidebar(*old(app)),
{
    if !app.full_art_mode {
        app.focus_sidebar = true;
        app.players_focus_global = false;
        app.search_input_active = false;
        app.app_search_input_active = false;
    }
}

/// The state after moving focus to the main panel: the query box of a search view takes
/// keys again.
pub open spec fn spec_focus_main(app: App) -> App {
    App {
        focus_sidebar: false,
        search_input_active: app.search_input_active || app.main_view is Search,
        app_search_input_active: app.app_search_input_active || app.main_view is AppSearch,
        ..app
    }
}

/// Gives the main panel the focus.
pub fn focus_main(app: &mut App)
    ensures
        *final(app) == spec_focus_main(*old(app)),
{
    app.focus_sidebar = false;
    if matches!(app.main_view, MainView::Search) {
        app.search_input_active = true;
    }
    if matches!(app.main_view, MainView::AppSearch { .. }) {
        app.app_search_input_active = true;
    }
}

/// The state after Tab (ignored in full-art mode): focus swaps between sidebar and main
/// panel, and the query box of a search view takes keys exactly when it has focus.
pub open spec fn spec_toggle_focus(app: App) -> App {
    if app.full_art_mode {
        app
    } else {
        App {
            focus_sidebar: !app.focus_sidebar,
            players_focus_global: false,
            search_input_active: app.focus_sidebar && app.main_view is Search,
            app_search_input_active: app.focus_sidebar && app.main_view is AppSearch,
            ..app
        }
    }
}

/// Swaps the focus between sidebar and main panel.
pub fn toggle_focus(app: &mut App)
    ensures
        *final(app) == spec_toggle_focus(*old(app)),
{
    if !app.full_art_mode {
        let sidebar = !app.focus_sidebar;
        app.focus_sidebar = sidebar;
        app.players_focus_global = false;
        app.search_input_active = !sidebar && matches!(app.main_view, MainView::Search);
        app.app_search_input_active = !sidebar && matches!(app.main_view, MainView::AppSearch { .. });
    }
}

} // verus!
