//! The Back action and entering the top-level views from the sidebar.
use vstd::prelude::*;
use crate::app::{App, FolderNav, LibraryView, MainView, RadioNav, SidebarItem};
use crate::effects::{EffectV, Effects, Load, effects_v, no_effects, one_effect, Effect};
use crate::navigation::{now_playing_index_ok, now_playing_queue_index};
use crate::select::{pid_or_empty};
use crate::text::to_owned_string;

verus! {

/// Back to the view remembered in `previous_view` (which is then forgotten), or, when none
/// is remembered, to `fallback` at its first row.
pub open spec fn back_to_previous_or(old: App, new: App, fallback: MainView) -> bool {
    match old.previous_view {
        Some(p) => new == (App { main_view: p, previous_view: None, ..old }),
        None => new == (App { main_view: fallback, main_selected: 0, ..old }),
    }
}

fn go_back_to_previous_or(app: &mut App, fallback: MainView)
    ensures
        back_to_previous_or(*old(app), *final(app), fallback),
{
    let mut prev: Option<MainView> = None;
    std::mem::swap(&mut prev, &mut app.previous_view);
    match prev {
        Some(p) => {
            app.main_view = p;
        },
        None => {
            app.main_view = fallback;
            app.main_selected = 0;
        },
    }
}

/// Back in the folder browser: the parent level comes back with its items, title and
/// cursor; at the top level My Music is shown again.
pub open spec fn back_folder_post(old: App, new: App) -> bool {
    let st = old.folder_nav_stack@;
    if st.len() > 0 {
        let nav = st.last();
        &&& new == (App {
            folder_nav_stack: new.folder_nav_stack,
            folder_items: nav.items,
            main_selected: nav.selected,
            folder_title: nav.title,
            main_view: MainView::Library(LibraryView::Folder { folder_id: nav.folder_id }),
            ..old
        })
        &&& new.folder_nav_stack@ == st.drop_last()
    } else {
        new == (App { main_view: MainView::MyMusic, main_selected: 0, ..old })
    }
}

fn back_folder(app: &mut App)
    ensures
        back_folder_post(*old(app), *final(app)),
{
    if app.folder_nav_stack.len() > 0 {
        let ghost st = app.folder_nav_stack@;
        let nav = match app.folder_nav_stack.pop() {
            Some(n) => n,
            None => {
                return;
            },
        };
        assert(app.folder_nav_stack@ =~= st.drop_last());
        app.folder_items = nav.items;
        app.main_selected = nav.selected;
        app.folder_title = nav.title;
        app.main_view = MainView::Library(LibraryView::Folder { folder_id: nav.folder_id });
    } else {
        app.main_view = MainView::MyMusic;
        app.main_selected = 0;
    }
}

/// Back in the radio tree: the parent level comes back; at the top the remembered view is
/// shown again, or the sidebar takes the focus.
pub open spec fn back_radio_post(old: App, new: App) -> bool {
    let st = old.radio_nav_stack@;
    if st.len() > 0 {
        &&& new == (App { radio_nav_stack: new.radio_nav_stack, radio_items: st.last().items, main_selected: st.last().selected, radio_title: st.last().title, ..old })
        &&& new.radio_nav_stack@ == st.drop_last()
    } else {
        previous_or_sidebar(old, new)
    }
}

/// Back in the apps tree (as in the radio tree).
pub open spec fn back_apps_post(old: App, new: App) -> bool {
    let st = old.app_nav_stack@;
    if st.len() > 0 {
        &&& new == (App { app_nav_stack: new.app_nav_stack, app_items: st.last().items, main_selected: st.last().selected, app_title: st.last().title, ..old })
        &&& new.app_nav_stack@ == st.drop_last()
    } else {
        previous_or_sidebar(old, new)
    }
}

/// Back in favourites: the parent level comes back; at the top the sidebar takes the focus.
pub open spec fn back_fav_post(old: App, new: App) -> bool {
    let st = old.fav_nav_stack@;
    if st.len() > 0 {
        &&& new == (App { fav_nav_stack: new.fav_nav_stack, fav_items: st.last().items, main_selected: st.last().selected, fav_title: st.last().title, ..old })
        &&& new.fav_nav_stack@ == st.drop_last()
    } else {
        new == (App { focus_sidebar: true, ..old })
    }
}

/// Back to the remembered view (which is then forgotten), else the sidebar takes the focus.
pub open spec fn previous_or_sidebar(old: App, new: App) -> bool {
    match old.previous_view {
        Some(p) => new == (App { main_view: p, previous_view: None, ..old }),
        None => new == (App { focus_sidebar: true, ..old }),
    }
}

fn restore_level(items: &mut Vec<crate::api::RadioItem>, title: &mut String, sel: &mut usize, nav: RadioNav)
    ensures
        *final(items) == nav.items,
        *final(title) == nav.title,
        *final(sel) == nav.selected,
{
    *items = nav.items;
    *title = nav.title;
    *sel = nav.selected;
}

fn restore_previous_or_sidebar(app: &mut App)
    ensures
        previous_or_sidebar(*old(app), *final(app)),
{
    let mut prev: Option<MainView> = None;
    std::mem::swap(&mut prev, &mut app.previous_view);
    match prev {
        Some(p) => {
            app.main_view = p;
        },
        None => {
            app.focus_sidebar = true;
        },
    }
}

fn back_radio(app: &mut App)
    ensures
        back_radio_post(*old(app), *final(app)),
{
    if app.radio_nav_stack.len() > 0 {
        let ghost st = app.radio_nav_stack@;
        let nav = match app.radio_nav_stack.pop() {
            Some(n) => n,
            None => {
                return;
            },
        };
        assert(app.radio_nav_stack@ =~= st.drop_last());
        restore_level(&mut app.radio_items, &mut app.radio_title, &mut app.main_selected, nav);
    } else {
        restore_previous_or_sidebar(app);
    }
}

fn back_apps(app: &mut App)
    ensures
        back_apps_post(*old(app), *final(app)),
{
    if app.app_nav_stack.len() > 0 {
        let ghost st = app.app_nav_stack@;
        let nav = match app.app_nav_stack.pop() {
            Some(n) => n,
            None => {
                return;
            },
        };
        assert(app.app_nav_stack@ =~= st.drop_last());
        restore_level(&mut app.app_items, &mut app.app_title, &mut app.main_selected, nav);
    } else {
        restore_previous_or_sidebar(app);
    }
}

fn back_fav(app: &mut App)
    ensures
        back_fav_post(*old(app), *final(app)),
{
    if app.fav_nav_stack.len() > 0 {
        let ghost st = app.fav_nav_stack@;
        let nav = match app.fav_nav_stack.pop() {
            Some(n) => n,
            None => {
                return;
            },
        };
        assert(app.fav_nav_stack@ =~= st.drop_last());
        app.fav_items = nav.items;
        app.main_selected = nav.selected;
        app.fav_title = nav.title;
    } else {
        app.focus_sidebar = true;
    }
}

/// Back in an in-app search: first the query box stops taking keys; then the Apps view
/// comes back and the search is cleared.
pub open spec fn back_app_search_post(old: App, new: App) -> bool {
    if old.app_search_input_active {
        new == (App { app_search_input_active: false, ..old })
    } else {
        &&& new == (App {
            main_view: MainView::Apps,
            app_search_query: new.app_search_query,
            app_search_cursor_pos: 0,
            app_search_results: new.app_search_results,
            ..old
        })
        &&& new.app_search_query@.len() == 0
        &&& new.app_search_results@.len() == 0
    }
}

fn back_app_search(app: &mut App)
    ensures
        back_app_search_post(*old(app), *final(app)),
{
    if app.app_search_input_active {
        app.app_search_input_active = false;
    } else {
        app.main_view = MainView::Apps;
        app.app_search_query = String::new();
        app.app_search_cursor_pos = 0;
        app.app_search_results = Vec::new();
    }
}

/// The state after Back (nothing while the sidebar has focus): drilled-down library views
/// return to the remembered view or to their parent list; the folder and browse trees go up
/// one level; search views give the focus back; elsewhere the sidebar takes the focus.
pub open spec fn back_post(old: App, new: App) -> bool {
    if old.focus_sidebar {
        new == old
    } else {
        match old.main_view {
            MainView::Library(LibraryView::Tracks { album_id: Some(_) }) =>
                back_to_previous_or(old, new, MainView::Library(LibraryView::Albums { artist_id: None })),
            MainView::Library(LibraryView::Albums { artist_id: Some(_) }) =>
                back_to_previous_or(old, new, MainView::Library(LibraryView::Artists)),
            MainView::Library(LibraryView::Folder { .. }) => back_folder_post(old, new),
            MainView::Library(_) => back_to_previous_or(old, new, MainView::MyMusic),
            MainView::Radio => back_radio_post(old, new),
            MainView::Apps => back_apps_post(old, new),
            MainView::Favourites => back_fav_post(old, new),
            MainView::Search => new == (App { focus_sidebar: true, search_input_active: false, ..old }),
            MainView::AppSearch { .. } => back_app_search_post(old, new),
            _ => new == (App { focus_sidebar: true, players_focus_global: false, ..old }),
        }
    }
}

/// Goes back (see `back_post`).
pub fn go_back(app: &mut App)
    ensures
        back_post(*old(app), *final(app)),
{
    if app.focus_sidebar {
        return;
    }
    let view = app.main_view.clone();
    match view {
        MainView::Library(LibraryView::Tracks { album_id: Some(_) }) =>
            go_back_to_previous_or(app, MainView::Library(LibraryView::Albums { artist_id: None })),
        MainView::Library(LibraryView::Albums { artist_id: Some(_) }) =>
            go_back_to_previous_or(app, MainView::Library(LibraryView::Artists)),
        MainView::Library(LibraryView::Folder { .. }) => back_folder(app),
        MainView::Library(_) => go_back_to_previous_or(app, MainView::MyMusic),
        MainView::Radio => back_radio(app),
        MainView::Apps => back_apps(app),
        MainView::Favourites => back_fav(app),
        MainView::Search => {
            app.focus_sidebar = true;
            app.search_input_active = false;
        },
        MainView::AppSearch { .. } => back_app_search(app),
        _ => {
            app.focus_sidebar = true;
            app.players_focus_global = false;
        },
    }
}

/// The title a top-level browse view starts with.
pub open spec fn browse_root_title(view: MainView) -> Seq<char> {
    match view {
        MainView::Radio => "Radio"@,
        MainView::Apps => "Apps"@,
        _ => "Favourites"@,
    }
}

/// Entering a top-level browse view (Radio, Apps or Favourites): its list, history and
/// title start afresh, the main panel takes the focus and loading starts.
pub open spec fn browse_entered(old: App, new: App, view: MainView) -> bool {
    &&& match view {
        MainView::Radio => {
            &&& new == (App { radio_items: new.radio_items, radio_nav_stack: new.radio_nav_stack, radio_title: new.radio_title, main_view: view, focus_sidebar: false, is_loading: true, ..old })
            &&& new.radio_items@.len() == 0 && new.radio_nav_stack@.len() == 0 && new.radio_title@ == browse_root_title(view)
        },
        MainView::Apps => {
            &&& new == (App { app_items: new.app_items, app_nav_stack: new.app_nav_stack, app_title: new.app_title, main_view: view, focus_sidebar: false, is_loading: true, ..old })
            &&& new.app_items@.len() == 0 && new.app_nav_stack@.len() == 0 && new.app_title@ == browse_root_title(view)
        },
        _ => {
            &&& new == (App { fav_items: new.fav_items, fav_nav_stack: new.fav_nav_stack, fav_title: new.fav_title, main_view: view, focus_sidebar: false, is_loading: true, ..old })
            &&& new.fav_items@.len() == 0 && new.fav_nav_stack@.len() == 0 && new.fav_title@ == browse_root_title(view)
        },
    }
}

/// Enters the top-level browse view `view` (Radio, Apps or Favourites).
pub fn enter_browse_view(app: &mut App, view: MainView)
    requires
        view is Radio || view is Apps || view is Favourites,
    ensures
        browse_entered(*old(app), *final(app), view),
{
    match view {
        MainView::Radio => {
            app.radio_items = Vec::new();
            app.radio_nav_stack = Vec::new();
            app.radio_title = to_owned_string("Radio");
        },
        MainView::Apps => {
            app.app_items = Vec::new();
            app.app_nav_stack = Vec::new();
            app.app_title = to_owned_string("Apps");
        },
        _ => {
            app.fav_items = Vec::new();
            app.fav_nav_stack = Vec::new();
            app.fav_title = to_owned_string("Favourites");
        },
    }
    app.main_view = view;
    app.focus_sidebar = false;
    app.is_loading = true;
}

/// Pushes a browse level onto a history stack.
pub fn push_nav(stack: &mut Vec<RadioNav>, title: String, items: Vec<crate::api::RadioItem>, selected: usize)
    ensures
        final(stack)@ == old(stack)@.push(RadioNav { title, items, selected }),
{
    stack.push(RadioNav { title, items, selected });
}

/// The state after activating sidebar entry `sidebar_selected` (the cursor of the main
/// panel first returns to the top and the all-players row is left): each entry shows its
/// view with the main panel focused; Radio, Apps and Favourites start afresh and load; the
/// queue opens on the playing track; Search opens with its query box taking keys; Help
/// opens scrolled to the top.
pub open spec fn sidebar_activate_post(old: App, new: App, effects: Seq<EffectV>) -> bool {
    let base = App { main_selected: 0, players_focus_global: false, ..old };
    let i = old.sidebar_selected as int;
    if 0 <= i < old.sidebar_items@.len() {
        match old.sidebar_items@[i] {
            SidebarItem::MyMusic => new == (App { main_view: MainView::MyMusic, focus_sidebar: false, ..base }) && effects.len() == 0,
            SidebarItem::Radio => browse_entered(base, new, MainView::Radio) && effects == seq![EffectV::Load(Load::RadioServices)],
            SidebarItem::Apps => browse_entered(base, new, MainView::Apps) && effects == seq![EffectV::Load(Load::AppServices)],
            SidebarItem::Favourites => browse_entered(base, new, MainView::Favourites)
                && effects == seq![EffectV::Load(Load::FavItems(pid_or_empty(old.active_player), None))],
            SidebarItem::Queue => {
                &&& new == (App { main_view: MainView::Queue, focus_sidebar: false, main_selected: new.main_selected, ..base })
                &&& now_playing_index_ok(old, new.main_selected)
                &&& effects.len() == 0
            },
            SidebarItem::Players => new == (App { main_view: MainView::Players, focus_sidebar: false, ..base }) && effects.len() == 0,
            SidebarItem::Search => new == (App { main_view: MainView::Search, search_input_active: true, focus_sidebar: false, ..base }) && effects.len() == 0,
            SidebarItem::Help => new == (App { main_view: MainView::Help, focus_sidebar: false, help_scroll: 0, ..base }) && effects.len() == 0,
        }
    } else {
        new == base && effects.len() == 0
    }
}

fn show_view(app: &mut App, view: MainView)
    ensures
        *final(app) == (App { main_view: view, focus_sidebar: false, ..*old(app) }),
{
    app.main_view = view;
    app.focus_sidebar = false;
}

fn show_view_at(app: &mut App, view: MainView, sel: usize)
    ensures
        *final(app) == (App { main_view: view, focus_sidebar: false, main_selected: sel, ..*old(app) }),
{
    app.main_view = view;
    app.focus_sidebar = false;
    app.main_selected = sel;
}

fn show_search(app: &mut App)
    ensures
        *final(app) == (App { main_view: MainView::Search, search_input_active: true, focus_sidebar: false, ..*old(app) }),
{
    app.main_view = MainView::Search;
    app.search_input_active = true;
    app.focus_sidebar = false;
}

fn show_help(app: &mut App)
    ensures
        *final(app) == (App { main_view: MainView::Help, focus_sidebar: false, help_scroll: 0, ..*old(app) }),
{
    app.main_view = MainView::Help;
    app.focus_sidebar = false;
    app.help_scroll = 0;
}

fn reset_main_cursor(app: &mut App)
    ensures
        *final(app) == (App { main_selected: 0, players_focus_global: false, ..*old(app) }),
{
    app.main_selected = 0;
    app.players_focus_global = false;
}

/// Activates the selected sidebar entry (see `sidebar_activate_post`).
pub fn activate_sidebar_item(app: &mut App) -> (r: Effects)
    ensures
        sidebar_activate_post(*old(app), *final(app), effects_v(r)),
{
    let queue_idx = now_playing_queue_index(app);
    let pid = crate::select::pid_or_empty_exec(&app.active_player);
    reset_main_cursor(app);
    if app.sidebar_selected >= app.sidebar_items.len() {
        return no_effects();
    }
    let item = app.sidebar_items[app.sidebar_selected];
    match item {
        SidebarItem::MyMusic => {
            show_view(app, MainView::MyMusic);
            no_effects()
        },
        SidebarItem::Radio => {
            enter_browse_view(app, MainView::Radio);
            one_effect(Effect::Load(Load::RadioServices))
        },
        SidebarItem::Apps => {
            enter_browse_view(app, MainView::Apps);
            one_effect(Effect::Load(Load::AppServices))
        },
        SidebarItem::Favourites => {
            enter_browse_view(app, MainView::Favourites);
            one_effect(Effect::Load(Load::FavItems(pid, None)))
        },
        SidebarItem::Queue => {
            show_view_at(app, MainView::Queue, queue_idx);
            no_effects()
        },
        SidebarItem::Players => {
            show_view(app, MainView::Players);
            no_effects()
        },
        SidebarItem::Search => {
            show_search(app);
            no_effects()
        },
        SidebarItem::Help => {
            show_help(app);
            no_effects()
        },
    }
}

} // verus!
