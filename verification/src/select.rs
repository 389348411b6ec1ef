//! What Enter does on the selected row of the main panel.
use vstd::prelude::*;
use crate::api::{FolderItemType, RadioItem, clone_opt_string};
use crate::app::{App, FolderNav, LibraryView, MainView, MyMusicEntry, RadioNav, SearchResultItem, my_music_entry, spec_my_music_entry};
use crate::effects::{Call, Effect, EffectV, Effects, Load, effects_v, no_effects, one_effect, opt_v};
use crate::text::{concat3, str_eq, to_owned_string, u64_to_string, spec_decimal};
use crate::api::{extract_id, spec_extract_id, opt_string_view};

verus! {

/// The active player's id, or the empty text when none is active.
pub open spec fn pid_or_empty(active: Option<String>) -> Seq<char> {
    match active {
        Some(p) => p@,
        None => Seq::empty(),
    }
}

pub(crate) fn pid_or_empty_exec(active: &Option<String>) -> (r: String)
    ensures
        r@ == pid_or_empty(*active),
{
    match active {
        Some(p) => p.clone(),
        None => String::new(),
    }
}

/// Number of entries asked for by the recently-played and most-played lists.
pub const TOP_LIST_LIMIT: usize = 50;

/// A library view opened from My Music, with the load it starts (if any).
pub open spec fn my_music_target(e: MyMusicEntry) -> (MainView, Option<Load<Seq<char>>>) {
    match e {
        MyMusicEntry::Artists => (MainView::Library(LibraryView::Artists), None),
        MyMusicEntry::AlbumArtists => (MainView::Library(LibraryView::AlbumArtists), None),
        MyMusicEntry::RecentlyPlayedArtists => (MainView::Library(LibraryView::RecentlyPlayedArtists), Some(Load::RecentArtists(TOP_LIST_LIMIT))),
        MyMusicEntry::Albums => (MainView::Library(LibraryView::Albums { artist_id: None }), Some(Load::Albums(None))),
        MyMusicEntry::PopularAlbums => (MainView::Library(LibraryView::PopularAlbums), Some(Load::PopularAlbums(TOP_LIST_LIMIT))),
        MyMusicEntry::Tracks => (MainView::Library(LibraryView::Tracks { album_id: None }), Some(Load::AllTracks)),
        MyMusicEntry::Playlists => (MainView::Library(LibraryView::Playlists), Some(Load::Playlists)),
        MyMusicEntry::Folders => (MainView::Library(LibraryView::Folder { folder_id: None }), Some(Load::FolderItems(None))),
    }
}

/// Enter in My Music opens the view of the selected entry at its first row; views whose data
/// is fetched on demand start loading; Folders starts again from the top folder.
pub open spec fn my_music_select_post(old: App, new: App, effects: Seq<EffectV>) -> bool {
    match spec_my_music_entry(old.main_selected as int) {
        None => new == old && effects.len() == 0,
        Some(e) => {
            let t = my_music_target(e);
            let folders = e == MyMusicEntry::Folders;
            &&& new == (App {
                folder_items: new.folder_items,
                folder_nav_stack: new.folder_nav_stack,
                folder_title: new.folder_title,
                main_view: t.0,
                main_selected: 0,
                is_loading: old.is_loading || t.1 is Some,
                ..old
            })
            &&& folders ==> (new.folder_items@.len() == 0 && new.folder_nav_stack@.len() == 0 && new.folder_title@ == "Folders"@)
            &&& !folders ==> (new.folder_items == old.folder_items && new.folder_nav_stack == old.folder_nav_stack && new.folder_title == old.folder_title)
            &&& effects == (match t.1 {
                Some(l) => seq![EffectV::Load(l)],
                None => Seq::empty(),
            })
        },
    }
}

fn my_music_target_exec(e: MyMusicEntry) -> (r: (MainView, Option<Load<String>>))
    ensures
        r.0 == my_music_target(e).0,
        match my_music_target(e).1 {
            Some(l) => r.1 matches Some(x) && crate::effects::load_v(x) == l,
            None => r.1 is None,
        },
{
    match e {
        MyMusicEntry::Artists => (MainView::Library(LibraryView::Artists), None),
        MyMusicEntry::AlbumArtists => (MainView::Library(LibraryView::AlbumArtists), None),
        MyMusicEntry::RecentlyPlayedArtists => (MainView::Library(LibraryView::RecentlyPlayedArtists), Some(Load::RecentArtists(TOP_LIST_LIMIT))),
        MyMusicEntry::Albums => (MainView::Library(LibraryView::Albums { artist_id: None }), Some(Load::Albums(None))),
        MyMusicEntry::PopularAlbums => (MainView::Library(LibraryView::PopularAlbums), Some(Load::PopularAlbums(TOP_LIST_LIMIT))),
        MyMusicEntry::Tracks => (MainView::Library(LibraryView::Tracks { album_id: None }), Some(Load::AllTracks)),
        MyMusicEntry::Playlists => (MainView::Library(LibraryView::Playlists), Some(Load::Playlists)),
        MyMusicEntry::Folders => (MainView::Library(LibraryView::Folder { folder_id: None }), Some(Load::FolderItems(None))),
    }
}

fn reset_folders(app: &mut App)
    ensures
        *final(app) == (App {
            folder_items: final(app).folder_items,
            folder_nav_stack: final(app).folder_nav_stack,
            folder_title: final(app).folder_title,
            ..*old(app)
        }),
        final(app).folder_items@.len() == 0,
        final(app).folder_nav_stack@.len() == 0,
        final(app).folder_title@ == "Folders"@,
{
    app.folder_items = Vec::new();
    app.folder_nav_stack = Vec::new();
    app.folder_title = to_owned_string("Folders");
}

fn open_view(app: &mut App, view: MainView, loading: bool)
    ensures
        *final(app) == (App { main_view: view, main_selected: 0, is_loading: old(app).is_loading || loading, ..*old(app) }),
{
    app.main_view = view;
    app.main_selected = 0;
    if loading {
        app.is_loading = true;
    }
}

/// Enter in My Music.
pub fn select_my_music(app: &mut App) -> (r: Effects)
    ensures
        my_music_select_post(*old(app), *final(app), effects_v(r)),
{
    let entry = match my_music_entry(app.main_selected) {
        Some(e) => e,
        None => {
            return no_effects();
        },
    };
    let t = my_music_target_exec(entry);
    if entry == MyMusicEntry::Folders {
        reset_folders(app);
    }
    let (view, load) = t;
    open_view(app, view, load.is_some());
    match load {
        Some(l) => one_effect(Effect::Load(l)),
        None => no_effects(),
    }
}

/// Opening `view` at its first row while `load` runs, optionally remembering where Back
/// returns to.
pub open spec fn drill_post(old: App, new: App, effects: Seq<EffectV>, view: MainView, load: Load<Seq<char>>, back: Option<MainView>) -> bool {
    &&& new == (App {
        is_loading: true,
        main_view: view,
        main_selected: 0,
        previous_view: match back {
            Some(b) => Some(b),
            None => old.previous_view,
        },
        ..old
    })
    &&& effects == seq![EffectV::Load(load)]
}

/// Enter on an artist list (all artists, album artists or recently played ones) opens that
/// artist's albums; from the recently played list Back returns there.
pub open spec fn artist_select_post(old: App, new: App, effects: Seq<EffectV>) -> bool {
    let i = old.main_selected as int;
    let (list, back) = match old.main_view {
        MainView::Library(LibraryView::AlbumArtists) => (old.album_artists@, None),
        MainView::Library(LibraryView::RecentlyPlayedArtists) => (old.recent_artists@, Some(MainView::Library(LibraryView::RecentlyPlayedArtists))),
        _ => (old.artists@, None),
    };
    if 0 <= i < list.len() {
        let id = list[i].id;
        drill_post(old, new, effects, MainView::Library(LibraryView::Albums { artist_id: Some(id) }), Load::Albums(Some(id@)), back)
    } else {
        new == old && effects.len() == 0
    }
}

/// Enter on an artist list.
pub fn select_artist(app: &mut App) -> (r: Effects)
    requires
        old(app).main_view is Library,
    ensures
        artist_select_post(*old(app), *final(app), effects_v(r)),
{
    let i = app.main_selected;
    let recent = matches!(app.main_view, MainView::Library(LibraryView::RecentlyPlayedArtists));
    let id = match &app.main_view {
        MainView::Library(LibraryView::AlbumArtists) => if i < app.album_artists.len() { Some(app.album_artists[i].id.clone()) } else { None },
        MainView::Library(LibraryView::RecentlyPlayedArtists) => if i < app.recent_artists.len() { Some(app.recent_artists[i].id.clone()) } else { None },
        _ => if i < app.artists.len() { Some(app.artists[i].id.clone()) } else { None },
    };
    match id {
        Some(id) => {
            let load_id = id.clone();
            app.is_loading = true;
            if recent {
                app.previous_view = Some(MainView::Library(LibraryView::RecentlyPlayedArtists));
            }
            app.main_view = MainView::Library(LibraryView::Albums { artist_id: Some(id) });
            app.main_selected = 0;
            one_effect(Effect::Load(Load::Albums(Some(load_id))))
        },
        None => no_effects(),
    }
}

/// Enter on an album list (an artist's albums, all albums or the most played) opens the
/// album's tracks; from the most played list Back returns there.
pub open spec fn album_select_post(old: App, new: App, effects: Seq<EffectV>) -> bool {
    let i = old.main_selected as int;
    let (list, back) = match old.main_view {
        MainView::Library(LibraryView::PopularAlbums) => (old.popular_albums@, Some(MainView::Library(LibraryView::PopularAlbums))),
        _ => (old.albums@, None),
    };
    if 0 <= i < list.len() {
        let id = list[i].id;
        drill_post(old, new, effects, MainView::Library(LibraryView::Tracks { album_id: Some(id) }), Load::Tracks(id@), back)
    } else {
        new == old && effects.len() == 0
    }
}

/// Enter on an album list.
pub fn select_album(app: &mut App) -> (r: Effects)
    ensures
        album_select_post(*old(app), *final(app), effects_v(r)),
{
    let i = app.main_selected;
    let popular = matches!(app.main_view, MainView::Library(LibraryView::PopularAlbums));
    let id = if popular {
        if i < app.popular_albums.len() { Some(app.popular_albums[i].id.clone()) } else { None }
    } else {
        if i < app.albums.len() { Some(app.albums[i].id.clone()) } else { None }
    };
    match id {
        Some(id) => {
            let load_id = id.clone();
            app.is_loading = true;
            if popular {
                app.previous_view = Some(MainView::Library(LibraryView::PopularAlbums));
            }
            app.main_view = MainView::Library(LibraryView::Tracks { album_id: Some(id) });
            app.main_selected = 0;
            one_effect(Effect::Load(Load::Tracks(load_id)))
        },
        None => no_effects(),
    }
}

/// Enter in a folder listing: a sub-folder is opened (the current level is kept for Back);
/// a track is played on the active player.
pub open spec fn folder_select_post(old: App, new: App, effects: Seq<EffectV>, folder_id: Option<u32>) -> bool {
    let i = old.main_selected as int;
    if 0 <= i < old.folder_items@.len() {
        let item = old.folder_items@[i];
        if item.item_type == FolderItemType::Folder {
            &&& new == (App {
                folder_nav_stack: new.folder_nav_stack,
                folder_items: new.folder_items,
                folder_title: item.filename,
                main_view: MainView::Library(LibraryView::Folder { folder_id: Some(item.id) }),
                main_selected: 0,
                is_loading: true,
                ..old
            })
            &&& new.folder_items@.len() == 0
            &&& new.folder_nav_stack@ == old.folder_nav_stack@.push(FolderNav {
                folder_id,
                title: old.folder_title,
                items: old.folder_items,
                selected: old.main_selected,
            })
            &&& effects == seq![EffectV::Load(Load::FolderItems(Some(item.id)))]
        } else {
            &&& new == old
            &&& effects == (match old.active_player {
                Some(p) => seq![EffectV::Fire(Call::PlayTrack(p@, spec_decimal(item.id as nat)))],
                None => Seq::empty(),
            })
        }
    } else {
        new == old && effects.len() == 0
    }
}

/// Enter in a folder listing whose level is `folder_id`.
pub fn select_folder(app: &mut App, folder_id: Option<u32>) -> (r: Effects)
    ensures
        folder_select_post(*old(app), *final(app), effects_v(r), folder_id),
{
    let i = app.main_selected;
    if i >= app.folder_items.len() {
        return no_effects();
    }
    let item = app.folder_items[i].clone();
    match item.item_type {
        FolderItemType::Folder => {
            let mut items: Vec<crate::api::FolderItem> = Vec::new();
            std::mem::swap(&mut items, &mut app.folder_items);
            let nav = FolderNav { folder_id, title: app.folder_title.clone(), items, selected: i };
            app.folder_nav_stack.push(nav);
            app.folder_title = item.filename;
            app.main_view = MainView::Library(LibraryView::Folder { folder_id: Some(item.id) });
            app.main_selected = 0;
            app.is_loading = true;
            one_effect(Effect::Load(Load::FolderItems(Some(item.id))))
        },
        FolderItemType::Track => {
            match app.active_pid() {
                Some(pid) => one_effect(Effect::Fire(Call::PlayTrack(pid, u64_to_string(item.id as u64)))),
                None => no_effects(),
            }
        },
    }
}

/// Status text when a playlist starts.
pub open spec fn playing_msg(name: Seq<char>) -> Seq<char> {
    "Playing \""@ + name + "\""@
}

/// Enter on a playlist plays it on the active player and reports it.
pub open spec fn playlist_select_effects(app: App) -> Seq<EffectV> {
    let i = app.main_selected as int;
    match app.active_player {
        Some(p) => if 0 <= i < app.playlists@.len() {
            let pl = app.playlists@[i];
            seq![EffectV::Report(Call::PlayPlaylist(p@, pl.id@), playing_msg(pl.name@))]
        } else {
            Seq::empty()
        },
        None => Seq::empty(),
    }
}

/// Enter on a playlist.
pub fn select_playlist(app: &App) -> (r: Effects)
    ensures
        effects_v(r) == playlist_select_effects(*app),
{
    match app.active_pid() {
        Some(pid) => {
            if app.main_selected < app.playlists.len() {
                let pl = &app.playlists[app.main_selected];
                let msg = concat3("Playing \"", pl.name.as_str(), "\"");
                one_effect(Effect::Report(Call::PlayPlaylist(pid, pl.id.clone()), msg))
            } else {
                no_effects()
            }
        },
        None => no_effects(),
    }
}

/// Enter on a track list: in an album, the album is loaded into the player and playback
/// jumps to the selected row; in the all-tracks list the selected track is played.
pub open spec fn track_select_effects(app: App, album_id: Option<String>) -> Seq<EffectV> {
    let i = app.main_selected;
    match app.active_player {
        Some(p) => match album_id {
            Some(a) => seq![EffectV::PlayAlbumAt(p@, a@, i)],
            None => if i < app.tracks@.len() {
                seq![EffectV::Fire(Call::PlayTrack(p@, spec_extract_id(opt_string_view(app.tracks@[i as int].id))))]
            } else {
                Seq::empty()
            },
        },
        None => Seq::empty(),
    }
}

/// Enter on a track list of album `album_id` (`None` = all tracks).
pub fn select_track(app: &App, album_id: &Option<String>) -> (r: Effects)
    ensures
        effects_v(r) == track_select_effects(*app, *album_id),
{
    match app.active_pid() {
        Some(pid) => match album_id {
            Some(a) => one_effect(Effect::PlayAlbumAt(pid, a.clone(), app.main_selected)),
            None => {
                if app.main_selected < app.tracks.len() {
                    let id = extract_id(&app.tracks[app.main_selected].id);
                    one_effect(Effect::Fire(Call::PlayTrack(pid, id)))
                } else {
                    no_effects()
                }
            },
        },
        None => no_effects(),
    }
}

/// Enter in the queue plays the selected row.
pub open spec fn queue_select_effects(app: App) -> Seq<EffectV> {
    match app.active_player {
        Some(p) => seq![EffectV::Fire(Call::PlayTrackIndex(p@, app.main_selected))],
        None => Seq::empty(),
    }
}

/// Enter in the queue.
pub fn select_queue(app: &App) -> (r: Effects)
    ensures
        effects_v(r) == queue_select_effects(*app),
{
    match app.active_pid() {
        Some(pid) => one_effect(Effect::Fire(Call::PlayTrackIndex(pid, app.main_selected))),
        None => no_effects(),
    }
}

/// Enter in the Players view: on the all-players row it switches global volume control; on
/// a player row that player becomes the active one and its playing state is followed.
pub open spec fn player_select_post(old: App, new: App, effects: Seq<EffectV>) -> bool {
    if old.players_focus_global {
        new == (App { global_volume_control: !old.global_volume_control, ..old }) && effects.len() == 0
    } else if old.main_selected < old.players@.len() {
        let pid = old.players@[old.main_selected as int].playerid;
        new == (App { active_player: Some(pid), ..old }) && effects == seq![EffectV::StartNowPlaying(pid@)]
    } else {
        new == old && effects.len() == 0
    }
}

/// Enter in the Players view.
pub fn select_player(app: &mut App) -> (r: Effects)
    ensures
        player_select_post(*old(app), *final(app), effects_v(r)),
{
    if app.players_focus_global {
        app.global_volume_control = !app.global_volume_control;
        no_effects()
    } else if app.main_selected < app.players.len() {
        let pid = app.players[app.main_selected].playerid.clone();
        app.active_player = Some(pid.clone());
        one_effect(Effect::StartNowPlaying(pid))
    } else {
        no_effects()
    }
}

/// Playing a stream entry: the active player plays its url under the entry's name, when the
/// entry is playable.
pub open spec fn play_url_effects(active: Option<String>, item: RadioItem) -> Seq<EffectV> {
    match (active, item.url) {
        (Some(p), Some(u)) => if item.spec_is_playable() {
            seq![EffectV::Fire(Call::PlayUrlWithTitle(p@, u@, item.name@))]
        } else {
            Seq::empty()
        },
        _ => Seq::empty(),
    }
}

fn play_url(active: &Option<String>, item: &RadioItem) -> (r: Effects)
    ensures
        effects_v(r) == play_url_effects(*active, *item),
{
    match (active, &item.url) {
        (Some(p), Some(u)) => if item.is_playable() {
            one_effect(Effect::Fire(Call::PlayUrlWithTitle(p.clone(), u.clone(), item.name.clone())))
        } else {
            no_effects()
        },
        _ => no_effects(),
    }
}

/// One level down in a browse tree: the current level (title, items, cursor) is kept for
/// Back and the list empties until the new level arrives.
fn push_level(items: &mut Vec<RadioItem>, stack: &mut Vec<RadioNav>, title: &mut String, selected: usize, name: String)
    ensures
        final(items)@.len() == 0,
        final(stack)@ == old(stack)@.push(RadioNav { title: *old(title), items: *old(items), selected }),
        *final(title) == name,
{
    let mut taken: Vec<RadioItem> = Vec::new();
    std::mem::swap(&mut taken, items);
    let mut t = name;
    std::mem::swap(&mut t, title);
    stack.push(RadioNav { title: t, items: taken, selected });
}

fn start_loading(app: &mut App)
    ensures
        *final(app) == (App { main_selected: 0, is_loading: true, ..*old(app) }),
{
    app.main_selected = 0;
    app.is_loading = true;
}

/// `new` is `old` one level down the radio tree into `name`.
pub open spec fn radio_descended(old: App, new: App, name: String) -> bool {
    &&& new == (App {
        radio_items: new.radio_items,
        radio_nav_stack: new.radio_nav_stack,
        radio_title: name,
        main_selected: 0,
        is_loading: true,
        ..old
    })
    &&& new.radio_items@.len() == 0
    &&& new.radio_nav_stack@ == old.radio_nav_stack@.push(RadioNav { title: old.radio_title, items: old.radio_items, selected: old.main_selected })
}

/// Enter in the Radio view: an entry with sub-entries (and a browse command) is opened;
/// a playable one is played.
pub open spec fn radio_select_post(old: App, new: App, effects: Seq<EffectV>) -> bool {
    let i = old.main_selected as int;
    if 0 <= i < old.radio_items@.len() {
        let item = old.radio_items@[i];
        match item.cmd {
            Some(cmd) => if item.spec_is_navigable() {
                &&& radio_descended(old, new, item.name)
                &&& effects == seq![EffectV::Load(Load::RadioItems(pid_or_empty(old.active_player), cmd@, opt_v(item.item_id)))]
            } else {
                new == old && effects == play_url_effects(old.active_player, item)
            },
            None => new == old && effects == play_url_effects(old.active_player, item),
        }
    } else {
        new == old && effects.len() == 0
    }
}

/// Enter in the Radio view.
pub fn select_radio(app: &mut App) -> (r: Effects)
    ensures
        radio_select_post(*old(app), *final(app), effects_v(r)),
{
    let i = app.main_selected;
    if i >= app.radio_items.len() {
        return no_effects();
    }
    let item = app.radio_items[i].clone();
    match &item.cmd {
        Some(cmd) => if item.is_navigable() {
            let pid = pid_or_empty_exec(&app.active_player);
            push_level(&mut app.radio_items, &mut app.radio_nav_stack, &mut app.radio_title, i, item.name.clone());
            start_loading(app);
            one_effect(Effect::Load(Load::RadioItems(pid, cmd.clone(), clone_opt_string(&item.item_id))))
        } else {
            play_url(&app.active_player, &item)
        },
        None => play_url(&app.active_player, &item),
    }
}

/// `new` is `old` one level down the favourites tree into `name`.
pub open spec fn fav_descended(old: App, new: App, name: String) -> bool {
    &&& new == (App {
        fav_items: new.fav_items,
        fav_nav_stack: new.fav_nav_stack,
        fav_title: name,
        main_selected: 0,
        is_loading: true,
        ..old
    })
    &&& new.fav_items@.len() == 0
    &&& new.fav_nav_stack@ == old.fav_nav_stack@.push(RadioNav { title: old.fav_title, items: old.fav_items, selected: old.main_selected })
}

/// Enter in Favourites: a folder entry (with an id) is opened; a playable one is played.
pub open spec fn fav_select_post(old: App, new: App, effects: Seq<EffectV>) -> bool {
    let i = old.main_selected as int;
    if 0 <= i < old.fav_items@.len() {
        let item = old.fav_items@[i];
        match item.item_id {
            Some(id) => if item.spec_is_navigable() {
                &&& fav_descended(old, new, item.name)
                &&& effects == seq![EffectV::Load(Load::FavItems(pid_or_empty(old.active_player), Some(id@)))]
            } else {
                new == old && effects == play_url_effects(old.active_player, item)
            },
            None => new == old && effects == play_url_effects(old.active_player, item),
        }
    } else {
        new == old && effects.len() == 0
    }
}

/// Enter in Favourites.
pub fn select_favourite(app: &mut App) -> (r: Effects)
    ensures
        fav_select_post(*old(app), *final(app), effects_v(r)),
{
    let i = app.main_selected;
    if i >= app.fav_items.len() {
        return no_effects();
    }
    let item = app.fav_items[i].clone();
    match &item.item_id {
        Some(id) => if item.is_navigable() {
            let pid = pid_or_empty_exec(&app.active_player);
            push_level(&mut app.fav_items, &mut app.fav_nav_stack, &mut app.fav_title, i, item.name.clone());
            start_loading(app);
            one_effect(Effect::Load(Load::FavItems(pid, Some(id.clone()))))
        } else {
            play_url(&app.active_player, &item)
        },
        None => play_url(&app.active_player, &item),
    }
}

/// `new` is `old` one level down the apps tree into `name`, keeping cursor `selected`.
pub open spec fn app_descended(old: App, new: App, name: String, selected: usize) -> bool {
    &&& new == (App {
        app_items: new.app_items,
        app_nav_stack: new.app_nav_stack,
        app_title: name,
        main_selected: 0,
        is_loading: true,
        main_view: new.main_view,
        ..old
    })
    &&& new.app_items@.len() == 0
    &&& new.app_nav_stack@ == old.app_nav_stack@.push(RadioNav { title: old.app_title, items: old.app_items, selected })
}

/// The in-app search view for search entry `cmd`/`item_id`, with an empty query taking keys.
pub open spec fn app_search_opened(old: App, new: App, cmd: String, item_id: Option<String>) -> bool {
    &&& new == (App {
        main_view: MainView::AppSearch { cmd, item_id },
        app_search_query: new.app_search_query,
        app_search_cursor_pos: 0,
        app_search_results: new.app_search_results,
        app_search_input_active: true,
        main_selected: 0,
        focus_sidebar: false,
        ..old
    })
    &&& new.app_search_query@.len() == 0
    &&& new.app_search_results@.len() == 0
}

/// Enter in the Apps view: a search entry opens the in-app search; an entry with
/// sub-entries (and a browse command) is opened; a playable one is played.
pub open spec fn apps_select_post(old: App, new: App, effects: Seq<EffectV>) -> bool {
    let i = old.main_selected as int;
    if 0 <= i < old.app_items@.len() {
        let item = old.app_items@[i];
        match item.cmd {
            Some(cmd) => if item.item_type@ == "search"@ {
                app_search_opened(old, new, cmd, item.item_id) && effects.len() == 0
            } else if item.spec_is_navigable() {
                &&& app_descended(old, new, item.name, old.main_selected)
                &&& new.main_view == old.main_view
                &&& effects == seq![EffectV::Load(Load::AppItems(pid_or_empty(old.active_player), cmd@, opt_v(item.item_id)))]
            } else {
                new == old && effects == play_url_effects(old.active_player, item)
            },
            None => new == old && effects == play_url_effects(old.active_player, item),
        }
    } else {
        new == old && effects.len() == 0
    }
}

fn open_app_search(app: &mut App, cmd: String, item_id: Option<String>)
    ensures
        app_search_opened(*old(app), *final(app), cmd, item_id),
{
    app.main_view = MainView::AppSearch { cmd, item_id };
    app.app_search_query = String::new();
    app.app_search_cursor_pos = 0;
    app.app_search_results = Vec::new();
    app.app_search_input_active = true;
    app.main_selected = 0;
    app.focus_sidebar = false;
}

/// Enter in the Apps view.
pub fn select_app(app: &mut App) -> (r: Effects)
    ensures
        apps_select_post(*old(app), *final(app), effects_v(r)),
{
    let i = app.main_selected;
    if i >= app.app_items.len() {
        return no_effects();
    }
    let item = app.app_items[i].clone();
    match &item.cmd {
        Some(cmd) => if str_eq(item.item_type.as_str(), "search") {
            open_app_search(app, cmd.clone(), clone_opt_string(&item.item_id));
            no_effects()
        } else if item.is_navigable() {
            let pid = pid_or_empty_exec(&app.active_player);
            push_level(&mut app.app_items, &mut app.app_nav_stack, &mut app.app_title, i, item.name.clone());
            start_loading(app);
            one_effect(Effect::Load(Load::AppItems(pid, cmd.clone(), clone_opt_string(&item.item_id))))
        } else {
            play_url(&app.active_player, &item)
        },
        None => play_url(&app.active_player, &item),
    }
}

/// Enter in an in-app search: a result with sub-entries (command and id) opens it in the
/// Apps view; a playable one is played; with no result selected the query box takes keys.
pub open spec fn app_search_select_post(old: App, new: App, effects: Seq<EffectV>) -> bool {
    let i = old.main_selected as int;
    if 0 <= i < old.app_search_results@.len() {
        let item = old.app_search_results@[i];
        if item.spec_is_navigable() && item.cmd is Some && item.item_id is Some {
            &&& app_descended(old, new, item.name, 0)
            &&& new.main_view == MainView::Apps
            &&& effects == seq![EffectV::Load(Load::AppItems(pid_or_empty(old.active_player), item.cmd.unwrap()@, opt_v(item.item_id)))]
        } else {
            new == old && effects == play_url_effects(old.active_player, item)
        }
    } else {
        new == (App { app_search_input_active: true, ..old }) && effects.len() == 0
    }
}

fn start_loading_view(app: &mut App, view: MainView)
    ensures
        *final(app) == (App { main_selected: 0, is_loading: true, main_view: view, ..*old(app) }),
{
    app.main_selected = 0;
    app.is_loading = true;
    app.main_view = view;
}

fn activate_app_search_input(app: &mut App)
    ensures
        *final(app) == (App { app_search_input_active: true, ..*old(app) }),
{
    app.app_search_input_active = true;
}

/// Enter in an in-app search.
pub fn select_app_search(app: &mut App) -> (r: Effects)
    ensures
        app_search_select_post(*old(app), *final(app), effects_v(r)),
{
    let i = app.main_selected;
    if i >= app.app_search_results.len() {
        activate_app_search_input(app);
        return no_effects();
    }
    let item = app.app_search_results[i].clone();
    if item.is_navigable() && item.cmd.is_some() && item.item_id.is_some() {
        let pid = pid_or_empty_exec(&app.active_player);
        let cmd = match &item.cmd {
            Some(c) => c.clone(),
            None => String::new(),
        };
        push_level(&mut app.app_items, &mut app.app_nav_stack, &mut app.app_title, 0, item.name.clone());
        start_loading_view(app, MainView::Apps);
        one_effect(Effect::Load(Load::AppItems(pid, cmd, clone_opt_string(&item.item_id))))
    } else {
        play_url(&app.active_player, &item)
    }
}

fn jump_from_search(app: &mut App, view: MainView, loading: bool)
    ensures
        *final(app) == (App {
            previous_view: Some(MainView::Search),
            main_view: view,
            main_selected: 0,
            is_loading: old(app).is_loading || loading,
            ..*old(app)
        }),
{
    app.previous_view = Some(MainView::Search);
    app.main_view = view;
    app.main_selected = 0;
    if loading {
        app.is_loading = true;
    }
}

fn reset_app_tree(app: &mut App, title: String)
    ensures
        *final(app) == (App { app_items: final(app).app_items, app_nav_stack: final(app).app_nav_stack, app_title: title, ..*old(app) }),
        final(app).app_items@.len() == 0,
        final(app).app_nav_stack@.len() == 0,
{
    app.app_items = Vec::new();
    app.app_nav_stack = Vec::new();
    app.app_title = title;
}

fn reset_radio_tree(app: &mut App, title: String)
    ensures
        *final(app) == (App { radio_items: final(app).radio_items, radio_nav_stack: final(app).radio_nav_stack, radio_title: title, ..*old(app) }),
        final(app).radio_items@.len() == 0,
        final(app).radio_nav_stack@.len() == 0,
{
    app.radio_items = Vec::new();
    app.radio_nav_stack = Vec::new();
    app.radio_title = title;
}

/// `new` left the search for `view` (Back returns to the search), at the first row.
pub open spec fn left_search(old: App, new: App, view: MainView, loading: bool) -> bool {
    new == (App {
        previous_view: Some(MainView::Search),
        main_view: view,
        main_selected: 0,
        is_loading: old.is_loading || loading,
        ..old
    })
}

/// Enter on an app found by a search: it opens at its top level in the Apps view.
pub open spec fn search_app_post(old: App, new: App, effects: Seq<EffectV>, item: RadioItem) -> bool {
    match item.cmd {
        Some(cmd) => {
            &&& new == (App {
                app_items: new.app_items,
                app_nav_stack: new.app_nav_stack,
                app_title: item.name,
                previous_view: Some(MainView::Search),
                main_view: MainView::Apps,
                main_selected: 0,
                ..old
            })
            &&& new.app_items@.len() == 0
            &&& new.app_nav_stack@.len() == 0
            &&& effects == seq![EffectV::Load(Load::AppItems(pid_or_empty(old.active_player), cmd@, opt_v(item.item_id)))]
        },
        None => new == old && effects.len() == 0,
    }
}

/// Enter on a radio entry found by a search: one with sub-entries opens in the Radio view; a
/// playable one is played.
pub open spec fn search_radio_post(old: App, new: App, effects: Seq<EffectV>, item: RadioItem) -> bool {
    match item.cmd {
        Some(cmd) => if item.spec_is_navigable() {
            &&& new == (App {
                radio_items: new.radio_items,
                radio_nav_stack: new.radio_nav_stack,
                radio_title: item.name,
                previous_view: Some(MainView::Search),
                main_view: MainView::Radio,
                main_selected: 0,
                is_loading: true,
                ..old
            })
            &&& new.radio_items@.len() == 0
            &&& new.radio_nav_stack@.len() == 0
            &&& effects == seq![EffectV::Load(Load::RadioItems(pid_or_empty(old.active_player), cmd@, opt_v(item.item_id)))]
        } else {
            new == old && effects == play_url_effects(old.active_player, item)
        },
        None => new == old && effects == play_url_effects(old.active_player, item),
    }
}

/// Enter on search result `item`: an artist opens its albums and an album its tracks; a
/// track or playlist is played; apps and radio entries as `search_app_post` and
/// `search_radio_post` say. Back from an opened result returns to the search.
pub open spec fn search_item_post(old: App, new: App, effects: Seq<EffectV>, item: SearchResultItem) -> bool {
    match item {
        SearchResultItem::Artist(a) => {
            &&& left_search(old, new, MainView::Library(LibraryView::Albums { artist_id: Some(a.id) }), false)
            &&& effects == seq![EffectV::Load(Load::Albums(Some(a.id@)))]
        },
        SearchResultItem::Album(alb) => {
            &&& left_search(old, new, MainView::Library(LibraryView::Tracks { album_id: Some(alb.id) }), false)
            &&& effects == seq![EffectV::Load(Load::Tracks(alb.id@))]
        },
        SearchResultItem::Track(t) => {
            &&& new == old
            &&& effects == (match old.active_player {
                Some(p) => seq![EffectV::Fire(Call::PlayTrack(p@, spec_extract_id(opt_string_view(t.id))))],
                None => Seq::empty(),
            })
        },
        SearchResultItem::Playlist(pl) => {
            &&& new == old
            &&& effects == (match old.active_player {
                Some(p) => seq![EffectV::Fire(Call::PlayPlaylist(p@, pl.id@))],
                None => Seq::empty(),
            })
        },
        SearchResultItem::AppItem(item) => search_app_post(old, new, effects, item),
        SearchResultItem::RadioItem(item) => search_radio_post(old, new, effects, item),
    }
}

/// Enter on the selected search result (nothing when no result is selected).
pub open spec fn search_select_post(old: App, new: App, effects: Seq<EffectV>) -> bool {
    let i = old.main_selected as int;
    if 0 <= i < old.search_results@.len() {
        search_item_post(old, new, effects, old.search_results@[i])
    } else {
        new == old && effects.len() == 0
    }
}

fn select_found_app(app: &mut App, item: RadioItem) -> (r: Effects)
    ensures
        search_app_post(*old(app), *final(app), effects_v(r), item),
{
    match &item.cmd {
        Some(cmd) => {
            let pid = pid_or_empty_exec(&app.active_player);
            let load = Load::AppItems(pid, cmd.clone(), clone_opt_string(&item.item_id));
            reset_app_tree(app, item.name.clone());
            jump_from_search(app, MainView::Apps, false);
            one_effect(Effect::Load(load))
        },
        None => no_effects(),
    }
}

fn select_found_radio(app: &mut App, item: RadioItem) -> (r: Effects)
    ensures
        search_radio_post(*old(app), *final(app), effects_v(r), item),
{
    let navigable = item.is_navigable();
    match &item.cmd {
        Some(cmd) => if navigable {
            let pid = pid_or_empty_exec(&app.active_player);
            let load = Load::RadioItems(pid, cmd.clone(), clone_opt_string(&item.item_id));
            reset_radio_tree(app, item.name.clone());
            jump_from_search(app, MainView::Radio, true);
            one_effect(Effect::Load(load))
        } else {
            play_url(&app.active_player, &item)
        },
        None => play_url(&app.active_player, &item),
    }
}

fn select_found_item(app: &mut App, item: SearchResultItem) -> (r: Effects)
    ensures
        search_item_post(*old(app), *final(app), effects_v(r), item),
{
    match item {
        SearchResultItem::Artist(a) => {
            let id = a.id.clone();
            jump_from_search(app, MainView::Library(LibraryView::Albums { artist_id: Some(a.id) }), false);
            one_effect(Effect::Load(Load::Albums(Some(id))))
        },
        SearchResultItem::Album(alb) => {
            let id = alb.id.clone();
            jump_from_search(app, MainView::Library(LibraryView::Tracks { album_id: Some(alb.id) }), false);
            one_effect(Effect::Load(Load::Tracks(id)))
        },
        SearchResultItem::Track(t) => match app.active_pid() {
            Some(pid) => one_effect(Effect::Fire(Call::PlayTrack(pid, extract_id(&t.id)))),
            None => no_effects(),
        },
        SearchResultItem::Playlist(pl) => match app.active_pid() {
            Some(pid) => one_effect(Effect::Fire(Call::PlayPlaylist(pid, pl.id))),
            None => no_effects(),
        },
        SearchResultItem::AppItem(item) => select_found_app(app, item),
        SearchResultItem::RadioItem(item) => select_found_radio(app, item),
    }
}

/// Enter on a search result.
pub fn select_search_result(app: &mut App) -> (r: Effects)
    ensures
        search_select_post(*old(app), *final(app), effects_v(r)),
{
    let i = app.main_selected;
    if i >= app.search_results.len() {
        return no_effects();
    }
    let item = app.search_results[i].clone();
    select_found_item(app, item)
}

} // verus!
