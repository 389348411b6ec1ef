//! Enter on the main panel, the context menu, and the dispatch of every key action.
use vstd::prelude::*;
use crate::app::{App, ContextMenu, LibraryView, LocalFilter, MainView, SearchScope};
use crate::filter::{clear, clear_filter_post, open_filter_action, open_filter_action_post, reenter_filter, up_reenters, up_reenters_filter};
use crate::back::{activate_sidebar_item, back_post, go_back, sidebar_activate_post};
use crate::effects::{Call, Effect, EffectV, Effects, effects_v, no_effects, one_effect};
use crate::events::{Action, KeyCode, KeyInput};
use crate::handlers::{is_down_key, is_up_key};
use crate::navigation::{
    focus_main, focus_sidebar, home_end, nav_down, nav_up, page_down, page_up, request_clear_queue,
    request_delete_queue_item, spec_clear_request, spec_delete_request, spec_focus_main, spec_focus_sidebar,
    spec_home_end, spec_nav_down, spec_nav_up, spec_page_down, spec_page_up, spec_toggle_focus, toggle_focus,
    toggle_full_art_mode, toggle_full_art_post, with_cursor,
};
use crate::queue_ops::{
    add_parent_post, add_to_favorites_post, add_to_queue_post, handle_add_parent_to_queue, handle_add_to_favorites,
    handle_add_to_queue, handle_insert_next, handle_replace_queue, handle_replace_queue_with_parent, insert_next_post,
    replace_parent_post, replace_queue_post,
};
use crate::select::{
    album_select_post, app_search_select_post, apps_select_post, artist_select_post, fav_select_post,
    folder_select_post, my_music_select_post, pid_or_empty, pid_or_empty_exec, player_select_post,
    playlist_select_effects, queue_select_effects, radio_select_post, search_select_post, select_album, select_app,
    select_app_search, select_artist, select_favourite, select_folder, select_my_music, select_player,
    select_playlist, select_queue, select_radio, select_search_result, select_track, track_select_effects,
};
use crate::utils::{compute_parent_labels, is_main_item_playable, spec_is_main_item_playable, spec_parent_labels};
use crate::volume::{adjust_volume, adjust_volume_post, toggle_mute, toggle_mute_post, toggle_power, toggle_power_effects};

verus! {

/// Enter on the main panel, by view.
pub open spec fn main_select_post(old: App, new: App, effects: Seq<EffectV>) -> bool {
    match old.main_view {
        MainView::MyMusic => my_music_select_post(old, new, effects),
        MainView::Library(LibraryView::Artists) => artist_select_post(old, new, effects),
        MainView::Library(LibraryView::AlbumArtists) => artist_select_post(old, new, effects),
        MainView::Library(LibraryView::RecentlyPlayedArtists) => artist_select_post(old, new, effects),
        MainView::Library(LibraryView::Albums { .. }) => album_select_post(old, new, effects),
        MainView::Library(LibraryView::PopularAlbums) => album_select_post(old, new, effects),
        MainView::Library(LibraryView::Folder { folder_id }) => folder_select_post(old, new, effects, folder_id),
        MainView::Library(LibraryView::Playlists) => new == old && effects == playlist_select_effects(old),
        MainView::Library(LibraryView::Tracks { album_id }) => new == old && effects == track_select_effects(old, album_id),
        MainView::Queue => new == old && effects == queue_select_effects(old),
        MainView::Players => player_select_post(old, new, effects),
        MainView::Radio => radio_select_post(old, new, effects),
        MainView::Apps => apps_select_post(old, new, effects),
        MainView::AppSearch { .. } => app_search_select_post(old, new, effects),
        MainView::Favourites => fav_select_post(old, new, effects),
        MainView::Help => new == old && effects.len() == 0,
        MainView::Search => search_select_post(old, new, effects),
    }
}

/// Enter on the selected row of the main panel.
pub fn handle_main_select(app: &mut App) -> (r: Effects)
    ensures
        main_select_post(*old(app), *final(app), effects_v(r)),
{
    let view = app.main_view.clone();
    match view {
        MainView::MyMusic => select_my_music(app),
        MainView::Library(LibraryView::Artists) => select_artist(app),
        MainView::Library(LibraryView::AlbumArtists) => select_artist(app),
        MainView::Library(LibraryView::RecentlyPlayedArtists) => select_artist(app),
        MainView::Library(LibraryView::Albums { .. }) => select_album(app),
        MainView::Library(LibraryView::PopularAlbums) => select_album(app),
        MainView::Library(LibraryView::Folder { folder_id }) => select_folder(app, folder_id),
        MainView::Library(LibraryView::Playlists) => select_playlist(app),
        MainView::Library(LibraryView::Tracks { album_id }) => select_track(app, &album_id),
        MainView::Queue => select_queue(app),
        MainView::Players => select_player(app),
        MainView::Radio => select_radio(app),
        MainView::Apps => select_app(app),
        MainView::AppSearch { .. } => select_app_search(app),
        MainView::Favourites => select_favourite(app),
        MainView::Help => no_effects(),
        MainView::Search => select_search_result(app),
    }
}

/// The scope after `s` (or before it when `forward` is false), cycling through My Music,
/// Radios, Apps and All.
pub open spec fn next_scope(s: SearchScope, forward: bool) -> SearchScope {
    match s {
        SearchScope::MyMusic => if forward { SearchScope::Radios } else { SearchScope::All },
        SearchScope::Radios => if forward { SearchScope::Apps } else { SearchScope::MyMusic },
        SearchScope::Apps => if forward { SearchScope::All } else { SearchScope::Radios },
        SearchScope::All => if forward { SearchScope::MyMusic } else { SearchScope::Apps },
    }
}

/// The search after switching scope: with a query typed, the results are cleared and the
/// search runs again in the new scope.
pub open spec fn cycle_scope_post(old: App, new: App, effects: Seq<EffectV>, forward: bool) -> bool {
    let ns = next_scope(old.search_scope, forward);
    if old.search_query@.len() > 0 {
        &&& new == (App { search_scope: ns, search_results: new.search_results, main_selected: 0, ..old })
        &&& new.search_results@.len() == 0
        &&& effects == seq![EffectV::Search(old.search_query@, ns, pid_or_empty(old.active_player))]
    } else {
        new == (App { search_scope: ns, ..old }) && effects.len() == 0
    }
}

/// Switches the search scope forward or backward.
pub fn cycle_search_scope(app: &mut App, forward: bool) -> (r: Effects)
    ensures
        cycle_scope_post(*old(app), *final(app), effects_v(r), forward),
{
    let ns = match app.search_scope {
        SearchScope::MyMusic => if forward { SearchScope::Radios } else { SearchScope::All },
        SearchScope::Radios => if forward { SearchScope::Apps } else { SearchScope::MyMusic },
        SearchScope::Apps => if forward { SearchScope::All } else { SearchScope::Radios },
        SearchScope::All => if forward { SearchScope::MyMusic } else { SearchScope::Apps },
    };
    app.search_scope = ns;
    if app.search_query.unicode_len() > 0 {
        app.search_results = Vec::new();
        app.main_selected = 0;
        let pid = pid_or_empty_exec(&app.active_player);
        one_effect(Effect::Search(app.search_query.clone(), ns, pid))
    } else {
        no_effects()
    }
}

/// The menu option chosen, run with the menu already closed: 0 Enter, 1 play next, 2 append,
/// 3 play now, 4 favourite, 5 append the container, 6 play the container now.
pub open spec fn menu_action_post(mid: App, new: App, effects: Seq<EffectV>, selected: usize) -> bool {
    if selected == 0 {
        main_select_post(mid, new, effects)
    } else if selected == 1 {
        insert_next_post(mid, new, effects)
    } else if selected == 2 {
        add_to_queue_post(mid, new, effects)
    } else if selected == 3 {
        replace_queue_post(mid, new, effects)
    } else if selected == 4 {
        add_to_favorites_post(mid, new, effects)
    } else if selected == 5 {
        add_parent_post(mid, new, effects)
    } else if selected == 6 {
        replace_parent_post(mid, new, effects)
    } else {
        new == mid && effects.len() == 0
    }
}

/// Running the selected option of the open context menu, which closes.
pub open spec fn context_action_post(old: App, new: App, effects: Seq<EffectV>) -> bool {
    match old.context_menu {
        None => new == old && effects.len() == 0,
        Some(m) => menu_action_post(App { context_menu: None, ..old }, new, effects, m.selected),
    }
}

fn close_context_menu(app: &mut App) -> (r: Option<ContextMenu>)
    ensures
        r == old(app).context_menu,
        *final(app) == (App { context_menu: None, ..*old(app) }),
{
    let mut m: Option<ContextMenu> = None;
    std::mem::swap(&mut m, &mut app.context_menu);
    m
}

/// Runs the selected option of the context menu.
pub fn execute_context_menu_action(app: &mut App) -> (r: Effects)
    ensures
        context_action_post(*old(app), *final(app), effects_v(r)),
{
    let menu = match close_context_menu(app) {
        Some(m) => m,
        None => {
            return no_effects();
        },
    };
    if menu.selected == 0 {
        handle_main_select(app)
    } else if menu.selected == 1 {
        handle_insert_next(app)
    } else if menu.selected == 2 {
        handle_add_to_queue(app)
    } else if menu.selected == 3 {
        handle_replace_queue(app)
    } else if menu.selected == 4 {
        handle_add_to_favorites(app)
    } else if menu.selected == 5 {
        handle_add_parent_to_queue(app)
    } else if menu.selected == 6 {
        handle_replace_queue_with_parent(app)
    } else {
        no_effects()
    }
}

/// The open context menu with option `selected`.
pub open spec fn menu_at(old: App, new: App, selected: usize) -> bool {
    match old.context_menu {
        Some(m) => new == (App { context_menu: Some(ContextMenu { selected, ..m }), ..old }),
        None => new == old,
    }
}

/// A key in the context menu: Up/`k` and Down/`j` move between the options (without
/// leaving the list); Enter runs the selected one; Esc/`q` close the menu.
pub open spec fn context_key_post(old: App, new: App, effects: Seq<EffectV>, key: KeyCode) -> bool {
    match old.context_menu {
        None => new == old && effects.len() == 0,
        Some(m) => if is_up_key(key) {
            menu_at(old, new, if m.selected > 0 { (m.selected - 1) as usize } else { m.selected }) && effects.len() == 0
        } else if is_down_key(key) {
            menu_at(old, new, if m.selected + 1 < m.spec_option_count() { (m.selected + 1) as usize } else { m.selected })
                && effects.len() == 0
        } else if key == KeyCode::Enter {
            context_action_post(old, new, effects)
        } else if key == KeyCode::Esc || key == KeyCode::Char('q') {
            new == (App { context_menu: None, ..old }) && effects.len() == 0
        } else {
            new == old && effects.len() == 0
        },
    }
}

fn set_menu_selected(app: &mut App, selected: usize)
    ensures
        menu_at(*old(app), *final(app), selected),
{
    if let Some(m) = &mut app.context_menu {
        m.selected = selected;
    }
}

/// A key while the context menu is open.
pub fn handle_context_menu_key(app: &mut App, key: KeyInput) -> (r: Effects)
    ensures
        context_key_post(*old(app), *final(app), effects_v(r), key.code),
{
    let (sel, count) = match &app.context_menu {
        Some(m) => (m.selected, m.option_count()),
        None => {
            return no_effects();
        },
    };
    let code = key.code;
    if code == KeyCode::Up || code == KeyCode::Char('k') {
        set_menu_selected(app, if sel > 0 { sel - 1 } else { sel });
        no_effects()
    } else if code == KeyCode::Down || code == KeyCode::Char('j') {
        set_menu_selected(app, if sel < count - 1 { sel + 1 } else { sel });
        no_effects()
    } else if code == KeyCode::Enter {
        execute_context_menu_action(app)
    } else if code == KeyCode::Esc || code == KeyCode::Char('q') {
        close_context_menu(app);
        no_effects()
    } else {
        no_effects()
    }
}

/// The context menu opened on the selected row, offering the container-wide options that
/// the view has (see `spec_parent_labels`).
pub open spec fn menu_opened(old: App, new: App) -> bool {
    &&& new == (App { context_menu: new.context_menu, ..old })
    &&& new.context_menu matches Some(m) && m.selected == 0 && match spec_parent_labels(old) {
        Some(l) => m.parent_add_label matches Some(a) && m.parent_replace_label matches Some(b) && a@ == l.0 && b@ == l.1,
        None => m.parent_add_label is None && m.parent_replace_label is None,
    }
}

pub(crate) fn open_context_menu(app: &mut App)
    ensures
        menu_opened(*old(app), *final(app)),
{
    let (add, replace) = compute_parent_labels(app);
    app.context_menu = Some(ContextMenu::new(add, replace));
}

/// The repeat mode after `r`: off, one track, the queue, endless, then off again.
pub open spec fn next_repeat(r: u8) -> u8 {
    if r == 0 {
        1
    } else if r == 1 {
        2
    } else if r == 2 {
        3
    } else {
        0
    }
}

/// The requests of the playback keys for the active player: play/pause as the player is
/// paused or playing, next, stop, previous; shuffle on or off and the next repeat mode
/// (these two only while a playing state is known).
pub open spec fn playback_effects(app: App, action: Action) -> Seq<EffectV> {
    match app.active_player {
        None => Seq::empty(),
        Some(p) => match action {
            Action::PlayPause => seq![EffectV::Fire(if app.spec_is_playing() { Call::Pause(p@) } else { Call::Play(p@) })],
            Action::Next => seq![EffectV::Fire(Call::Next(p@))],
            Action::Stop => seq![EffectV::Fire(Call::Stop(p@))],
            Action::Prev => seq![EffectV::Fire(Call::Prev(p@))],
            Action::ToggleShuffle => match app.now_playing {
                Some(n) => seq![EffectV::Fire(Call::SetShuffle(p@, if n.shuffle > 0 { 0u8 } else { 1u8 }))],
                None => Seq::empty(),
            },
            Action::ToggleRepeat => match app.now_playing {
                Some(n) => seq![EffectV::Fire(Call::SetRepeat(p@, next_repeat(n.repeat)))],
                None => Seq::empty(),
            },
            _ => Seq::empty(),
        },
    }
}

/// The requests of a playback key.
pub fn playback_request(app: &App, action: Action) -> (r: Effects)
    ensures
        effects_v(r) == playback_effects(*app, action),
{
    let p = match app.active_pid() {
        Some(p) => p,
        None => {
            return no_effects();
        },
    };
    match action {
        Action::PlayPause => one_effect(Effect::Fire(if app.is_playing() { Call::Pause(p) } else { Call::Play(p) })),
        Action::Next => one_effect(Effect::Fire(Call::Next(p))),
        Action::Stop => one_effect(Effect::Fire(Call::Stop(p))),
        Action::Prev => one_effect(Effect::Fire(Call::Prev(p))),
        Action::ToggleShuffle => match &app.now_playing {
            Some(n) => one_effect(Effect::Fire(Call::SetShuffle(p, if n.shuffle > 0 { 0 } else { 1 }))),
            None => no_effects(),
        },
        Action::ToggleRepeat => match &app.now_playing {
            Some(n) => {
                let r: u8 = if n.repeat == 0 {
                    1
                } else if n.repeat == 1 {
                    2
                } else if n.repeat == 2 {
                    3
                } else {
                    0
                };
                one_effect(Effect::Fire(Call::SetRepeat(p, r)))
            },
            None => no_effects(),
        },
        _ => no_effects(),
    }
}

/// Step of the volume keys.
pub const VOLUME_STEP: i16 = 5;

/// Enter: in full-art mode the selected queue row plays; with the sidebar focused its entry
/// opens; on something playable the context menu opens; otherwise as `main_select_post`.
pub open spec fn select_action_post(old: App, new: App, effects: Seq<EffectV>) -> bool {
    if old.full_art_mode {
        new == old && effects == (match old.active_player {
            Some(p) => seq![EffectV::Fire(Call::PlayTrackIndex(p@, old.main_selected))],
            None => Seq::empty(),
        })
    } else if old.focus_sidebar {
        sidebar_activate_post(old, new, effects)
    } else if spec_is_main_item_playable(old) {
        menu_opened(old, new) && effects.len() == 0
    } else {
        main_select_post(old, new, effects)
    }
}

/// Enter as an action.
pub fn select_action(app: &mut App) -> (r: Effects)
    ensures
        select_action_post(*old(app), *final(app), effects_v(r)),
{
    if app.full_art_mode {
        match app.active_pid() {
            Some(p) => one_effect(Effect::Fire(Call::PlayTrackIndex(p, app.main_selected))),
            None => no_effects(),
        }
    } else if app.focus_sidebar {
        activate_sidebar_item(app)
    } else if is_main_item_playable(app) {
        open_context_menu(app);
        no_effects()
    } else {
        handle_main_select(app)
    }
}

/// The action acts on the players (playback, volume, mute, power, queue) rather than on the
/// screens.
pub open spec fn is_player_action(action: Action) -> bool {
    match action {
        Action::PlayPause | Action::Next | Action::Stop | Action::Prev | Action::ToggleShuffle
        | Action::ToggleRepeat | Action::VolumeUp | Action::VolumeDown | Action::ToggleMute
        | Action::TogglePower | Action::AddToQueue | Action::ClearQueue | Action::DeleteQueueItem => true,
        _ => false,
    }
}

/// The state and requests after a player action (`now` is the time in milliseconds,
/// recorded with volume changes): playback keys ask the active player; volume keys move by
/// 5; append acts on the selected row unless the sidebar has focus; clear and delete open
/// their confirmations.
#[verifier::opaque]
pub open spec fn player_action_post(old: App, new: App, effects: Seq<EffectV>, action: Action, now: u64) -> bool {
    match action {
        Action::VolumeUp => adjust_volume_post(old, new, effects, 5, now),
        Action::VolumeDown => adjust_volume_post(old, new, effects, -5, now),
        Action::ToggleMute => toggle_mute_post(old, new, effects, now),
        Action::TogglePower => new == old && effects == toggle_power_effects(old),
        Action::AddToQueue => if old.focus_sidebar {
            new == old && effects.len() == 0
        } else {
            add_to_queue_post(old, new, effects)
        },
        Action::ClearQueue => new == spec_clear_request(old) && effects.len() == 0,
        Action::DeleteQueueItem => new == spec_delete_request(old) && effects.len() == 0,
        _ => new == old && effects == playback_effects(old, action),
    }
}

/// The state and requests after a screen action: focus moves (in the Players view Left and
/// Right move the selected volume by 5 instead), cursor moves, Enter, Back, full-art mode,
/// search scope and sidebar shortcuts; Quit and OpenConfig change nothing here.
#[verifier::opaque]
pub open spec fn view_action_post(old: App, new: App, effects: Seq<EffectV>, action: Action, now: u64) -> bool {
    match action {
        Action::FocusSidebar => if old.full_art_mode {
            new == old && effects.len() == 0
        } else if old.main_view is Players && !old.focus_sidebar {
            adjust_volume_post(old, new, effects, -5, now)
        } else {
            new == spec_focus_sidebar(old) && effects.len() == 0
        },
        Action::FocusMain => if old.main_view is Players && !old.focus_sidebar {
            adjust_volume_post(old, new, effects, 5, now)
        } else {
            new == spec_focus_main(old) && effects.len() == 0
        },
        Action::ToggleFocus => new == spec_toggle_focus(old) && effects.len() == 0,
        Action::NavUp => effects.len() == 0 && if up_reenters_filter(old) {
            new == (App { local_filter: Some(LocalFilter { editing: true, ..old.local_filter->Some_0 }), ..old })
        } else {
            new == with_cursor(old, spec_nav_up(old))
        },
        Action::NavDown => new == with_cursor(old, spec_nav_down(old)) && effects.len() == 0,
        Action::PageUp => new == with_cursor(old, spec_page_up(old)) && effects.len() == 0,
        Action::PageDown => new == with_cursor(old, spec_page_down(old)) && effects.len() == 0,
        Action::Home => new == with_cursor(old, spec_home_end(old, true)) && effects.len() == 0,
        Action::End => new == with_cursor(old, spec_home_end(old, false)) && effects.len() == 0,
        Action::Select => select_action_post(old, new, effects),
        Action::Back => effects.len() == 0 && if old.local_filter is Some {
            clear_filter_post(old, new)
        } else {
            back_post(old, new)
        },
        Action::OpenLocalFilter => open_filter_action_post(old, new) && effects.len() == 0,
        Action::ToggleFullArtMode => toggle_full_art_post(old, new) && effects.len() == 0,
        Action::ScopePrev | Action::ScopeNext => if old.main_view is Search && !old.focus_sidebar {
            cycle_scope_post(old, new, effects, action == Action::ScopeNext)
        } else {
            new == old && effects.len() == 0
        },
        Action::NavToSidebar(idx) => if idx < old.sidebar_items@.len() {
            sidebar_activate_post(App { sidebar_selected: idx, ..old }, new, effects)
        } else {
            new == old && effects.len() == 0
        },
        _ => new == old && effects.len() == 0,
    }
}

/// The state and requests after `action`.
pub open spec fn action_post(old: App, new: App, effects: Seq<EffectV>, action: Action, now: u64) -> bool {
    if is_player_action(action) {
        player_action_post(old, new, effects, action, now)
    } else {
        view_action_post(old, new, effects, action, now)
    }
}

fn select_sidebar_entry(app: &mut App, idx: usize)
    ensures
        *final(app) == (App { sidebar_selected: idx, ..*old(app) }),
{
    app.sidebar_selected = idx;
}

fn handle_player_action(app: &mut App, action: Action, now: u64) -> (r: Effects)
    requires
        is_player_action(action),
    ensures
        player_action_post(*old(app), *final(app), effects_v(r), action, now),
{
    proof {
        reveal(player_action_post);
    }
    match action {
        Action::VolumeUp => adjust_volume(app, VOLUME_STEP, now),
        Action::VolumeDown => adjust_volume(app, -VOLUME_STEP, now),
        Action::ToggleMute => toggle_mute(app, now),
        Action::TogglePower => toggle_power(app),
        Action::AddToQueue => {
            if app.focus_sidebar {
                no_effects()
            } else {
                handle_add_to_queue(app)
            }
        },
        Action::ClearQueue => {
            request_clear_queue(app);
            no_effects()
        },
        Action::DeleteQueueItem => {
            request_delete_queue_item(app);
            no_effects()
        },
        _ => playback_request(app, action),
    }
}

fn handle_focus_action(app: &mut App, action: Action, now: u64) -> (r: Effects)
    requires
        action == Action::FocusSidebar || action == Action::FocusMain,
    ensures
        view_action_post(*old(app), *final(app), effects_v(r), action, now),
{
    proof {
        reveal(view_action_post);
    }
    let players = matches!(app.main_view, MainView::Players) && !app.focus_sidebar;
    if action == Action::FocusSidebar {
        if app.full_art_mode {
            no_effects()
        } else if players {
            adjust_volume(app, -VOLUME_STEP, now)
        } else {
            focus_sidebar(app);
            no_effects()
        }
    } else {
        if players {
            adjust_volume(app, VOLUME_STEP, now)
        } else {
            focus_main(app);
            no_effects()
        }
    }
}

fn handle_cursor_action(app: &mut App, action: Action, now: u64)
    requires
        action == Action::NavUp || action == Action::NavDown || action == Action::PageUp || action == Action::PageDown
            || action == Action::Home || action == Action::End || action == Action::ToggleFocus,
        action == Action::PageDown && !old(app).focus_sidebar && !(old(app).main_view is Help)
            ==> old(app).main_selected + 10 <= usize::MAX,
    ensures
        view_action_post(*old(app), *final(app), Seq::empty(), action, now),
{
    proof {
        reveal(view_action_post);
    }
    if action == Action::NavUp {
        if up_reenters(app) {
            reenter_filter(app, false);
        } else {
            nav_up(app);
        }
    } else if action == Action::NavDown {
        nav_down(app);
    } else if action == Action::PageUp {
        page_up(app);
    } else if action == Action::PageDown {
        page_down(app);
    } else if action == Action::Home {
        home_end(app, true);
    } else if action == Action::End {
        home_end(app, false);
    } else {
        toggle_focus(app);
    }
}

fn handle_select_action(app: &mut App, now: u64) -> (r: Effects)
    ensures
        view_action_post(*old(app), *final(app), effects_v(r), Action::Select, now),
{
    proof {
        reveal(view_action_post);
    }
    select_action(app)
}

fn handle_back_action(app: &mut App, now: u64) -> (r: Effects)
    ensures
        view_action_post(*old(app), *final(app), effects_v(r), Action::Back, now),
{
    proof {
        reveal(view_action_post);
    }
    if app.local_filter.is_some() {
        clear(app);
    } else {
        go_back(app);
    }
    no_effects()
}

fn handle_open_filter_action(app: &mut App, now: u64) -> (r: Effects)
    ensures
        view_action_post(*old(app), *final(app), effects_v(r), Action::OpenLocalFilter, now),
{
    proof {
        reveal(view_action_post);
    }
    open_filter_action(app);
    no_effects()
}

fn handle_full_art_action(app: &mut App, now: u64) -> (r: Effects)
    ensures
        view_action_post(*old(app), *final(app), effects_v(r), Action::ToggleFullArtMode, now),
{
    proof {
        reveal(view_action_post);
    }
    toggle_full_art_mode(app);
    no_effects()
}

fn handle_scope_action(app: &mut App, action: Action, now: u64) -> (r: Effects)
    requires
        action == Action::ScopePrev || action == Action::ScopeNext,
    ensures
        view_action_post(*old(app), *final(app), effects_v(r), action, now),
{
    proof {
        reveal(view_action_post);
    }
    if matches!(app.main_view, MainView::Search) && !app.focus_sidebar {
        cycle_search_scope(app, action == Action::ScopeNext)
    } else {
        no_effects()
    }
}

fn handle_sidebar_shortcut(app: &mut App, idx: usize, now: u64) -> (r: Effects)
    ensures
        view_action_post(*old(app), *final(app), effects_v(r), Action::NavToSidebar(idx), now),
{
    proof {
        reveal(view_action_post);
    }
    if idx < app.sidebar_items.len() {
        select_sidebar_entry(app, idx);
        activate_sidebar_item(app)
    } else {
        no_effects()
    }
}

fn handle_inert_action(app: &mut App, action: Action, now: u64) -> (r: Effects)
    requires
        action == Action::Quit || action == Action::OpenConfig || action == Action::Nothing,
    ensures
        view_action_post(*old(app), *final(app), effects_v(r), action, now),
{
    proof {
        reveal(view_action_post);
    }
    no_effects()
}

fn handle_view_action(app: &mut App, action: Action, now: u64) -> (r: Effects)
    requires
        !is_player_action(action),
        action == Action::PageDown && !old(app).focus_sidebar && !(old(app).main_view is Help)
            ==> old(app).main_selected + 10 <= usize::MAX,
    ensures
        view_action_post(*old(app), *final(app), effects_v(r), action, now),
{
    match action {
        Action::FocusSidebar | Action::FocusMain => handle_focus_action(app, action, now),
        Action::NavUp | Action::NavDown | Action::PageUp | Action::PageDown | Action::Home | Action::End
        | Action::ToggleFocus => {
            handle_cursor_action(app, action, now);
            no_effects()
        },
        Action::Select => handle_select_action(app, now),
        Action::Back => handle_back_action(app, now),
        Action::ToggleFullArtMode => handle_full_art_action(app, now),
        Action::ScopePrev | Action::ScopeNext => handle_scope_action(app, action, now),
        Action::NavToSidebar(idx) => handle_sidebar_shortcut(app, idx, now),
        Action::OpenLocalFilter => handle_open_filter_action(app, now),
        _ => handle_inert_action(app, action, now),
    }
}

/// Carries out `action`; true when the client should quit.
pub fn handle_action(app: &mut App, action: Action, now: u64) -> (r: (bool, Effects))
    requires
        action == Action::PageDown && !old(app).focus_sidebar && !(old(app).main_view is Help)
            ==> old(app).main_selected + 10 <= usize::MAX,
    ensures
        r.0 == (action == Action::Quit),
        action_post(*old(app), *final(app), effects_v(r.1), action, now),
{
    if action == Action::Quit {
        return (true, handle_inert_action(app, action, now));
    }
    let effects = if is_player_action_exec(action) {
        handle_player_action(app, action, now)
    } else {
        handle_view_action(app, action, now)
    };
    (false, effects)
}

fn is_player_action_exec(action: Action) -> (r: bool)
    ensures
        r == is_player_action(action),
{
    match action {
        Action::PlayPause | Action::Next | Action::Stop | Action::Prev | Action::ToggleShuffle
        | Action::ToggleRepeat | Action::VolumeUp | Action::VolumeDown | Action::ToggleMute
        | Action::TogglePower | Action::AddToQueue | Action::ClearQueue | Action::DeleteQueueItem => true,
        _ => false,
    }
}

} // verus!
