//! Queue actions on the selected item or on the container being browsed: append, play now
//! (replacing the queue), play next, and add to favourites.
use vstd::prelude::*;
use crate::api::{FolderItemType, RadioItem, extract_id, opt_string_view, spec_extract_id};
use crate::app::{App, LibraryView, MainView, SearchResultItem};
use crate::effects::{Call, Effect, EffectV, Effects, effects_v, no_effects, one_effect, pairs_v};
use crate::select::playing_msg;
use crate::text::{concat2, concat3, spec_decimal, to_owned_string, u64_to_string};
use crate::utils::{album_name, spec_album_name};

verus! {

/// The selected item as something a queue can take. `S` is the text type.
#[derive(Debug)]
pub enum QueueTarget<S> {
    Artist { id: S, name: S },
    Album { id: S, name: S },
    Track { id: S, name: S },
    Playlist { id: S, name: S },
    FolderTrack { id: S, name: S },
    FolderFolder { id: u32, name: S },
    Url { url: S, name: S },
}

/// The container being browsed as something a queue can take. `S` is the text type, `L`
/// the type of its list of (title, url) entries.
#[derive(Debug)]
pub enum ParentTarget<S, L> {
    Album { id: S, name: S },
    Folder { id: u32, name: S },
    UrlFolder { items: L, title: S },
}

pub open spec fn queue_target_v(t: QueueTarget<String>) -> QueueTarget<Seq<char>> {
    match t {
        QueueTarget::Artist { id, name } => QueueTarget::Artist { id: id@, name: name@ },
        QueueTarget::Album { id, name } => QueueTarget::Album { id: id@, name: name@ },
        QueueTarget::Track { id, name } => QueueTarget::Track { id: id@, name: name@ },
        QueueTarget::Playlist { id, name } => QueueTarget::Playlist { id: id@, name: name@ },
        QueueTarget::FolderTrack { id, name } => QueueTarget::FolderTrack { id: id@, name: name@ },
        QueueTarget::FolderFolder { id, name } => QueueTarget::FolderFolder { id, name: name@ },
        QueueTarget::Url { url, name } => QueueTarget::Url { url: url@, name: name@ },
    }
}

pub open spec fn opt_queue_target_v(t: Option<QueueTarget<String>>) -> Option<QueueTarget<Seq<char>>> {
    match t {
        Some(x) => Some(queue_target_v(x)),
        None => None,
    }
}

/// The stream entry at `i` of `items`, when it has a url.
pub open spec fn url_target(items: Seq<RadioItem>, i: int) -> Option<QueueTarget<Seq<char>>> {
    if 0 <= i < items.len() {
        match items[i].url {
            Some(u) => Some(QueueTarget::Url { url: u@, name: items[i].name@ }),
            None => None,
        }
    } else {
        None
    }
}

/// The text id of a track (see `extract_id`).
pub open spec fn track_id_text(id: Option<String>) -> Seq<char> {
    spec_extract_id(opt_string_view(id))
}

/// The queue target of the selected row: an artist, album, track or playlist of the library
/// lists and of the search results, a track or sub-folder of a folder listing, or a stream
/// entry (with a url) of the radio, apps, in-app search and favourites lists.
pub open spec fn spec_queue_target(app: App) -> Option<QueueTarget<Seq<char>>> {
    let i = app.main_selected as int;
    match app.main_view {
        MainView::Library(LibraryView::Artists) => if 0 <= i < app.artists@.len() {
            Some(QueueTarget::Artist { id: app.artists@[i].id@, name: app.artists@[i].artist@ })
        } else {
            None
        },
        MainView::Library(LibraryView::AlbumArtists) => if 0 <= i < app.album_artists@.len() {
            Some(QueueTarget::Artist { id: app.album_artists@[i].id@, name: app.album_artists@[i].artist@ })
        } else {
            None
        },
        MainView::Library(LibraryView::Albums { .. }) => if 0 <= i < app.albums@.len() {
            Some(QueueTarget::Album { id: app.albums@[i].id@, name: app.albums@[i].album@ })
        } else {
            None
        },
        MainView::Library(LibraryView::Tracks { .. }) => if 0 <= i < app.tracks@.len() {
            Some(QueueTarget::Track { id: track_id_text(app.tracks@[i].id), name: app.tracks@[i].title@ })
        } else {
            None
        },
        MainView::Library(LibraryView::Playlists) => if 0 <= i < app.playlists@.len() {
            Some(QueueTarget::Playlist { id: app.playlists@[i].id@, name: app.playlists@[i].name@ })
        } else {
            None
        },
        MainView::Library(LibraryView::Folder { .. }) => if 0 <= i < app.folder_items@.len() {
            let item = app.folder_items@[i];
            if item.item_type == FolderItemType::Track {
                Some(QueueTarget::FolderTrack { id: spec_decimal(item.id as nat), name: item.filename@ })
            } else {
                Some(QueueTarget::FolderFolder { id: item.id, name: item.filename@ })
            }
        } else {
            None
        },
        MainView::Radio => url_target(app.radio_items@, i),
        MainView::Apps => url_target(app.app_items@, i),
        MainView::AppSearch { .. } => url_target(app.app_search_results@, i),
        MainView::Favourites => url_target(app.fav_items@, i),
        MainView::Search => if 0 <= i < app.search_results@.len() {
            match app.search_results@[i] {
                SearchResultItem::Track(t) => Some(QueueTarget::Track { id: track_id_text(t.id), name: t.title@ }),
                SearchResultItem::Album(a) => Some(QueueTarget::Album { id: a.id@, name: a.album@ }),
                SearchResultItem::Artist(a) => Some(QueueTarget::Artist { id: a.id@, name: a.artist@ }),
                SearchResultItem::Playlist(p) => Some(QueueTarget::Playlist { id: p.id@, name: p.name@ }),
                _ => None,
            }
        } else {
            None
        },
        _ => None,
    }
}

fn url_target_exec(items: &Vec<RadioItem>, i: usize) -> (r: Option<QueueTarget<String>>)
    ensures
        opt_queue_target_v(r) == url_target(items@, i as int),
{
    if i < items.len() {
        match &items[i].url {
            Some(u) => Some(QueueTarget::Url { url: u.clone(), name: items[i].name.clone() }),
            None => None,
        }
    } else {
        None
    }
}

fn search_queue_target(item: &SearchResultItem) -> (r: Option<QueueTarget<String>>)
    ensures
        opt_queue_target_v(r) == (match *item {
            SearchResultItem::Track(t) => Some(QueueTarget::Track { id: track_id_text(t.id), name: t.title@ }),
            SearchResultItem::Album(a) => Some(QueueTarget::Album { id: a.id@, name: a.album@ }),
            SearchResultItem::Artist(a) => Some(QueueTarget::Artist { id: a.id@, name: a.artist@ }),
            SearchResultItem::Playlist(p) => Some(QueueTarget::Playlist { id: p.id@, name: p.name@ }),
            _ => None::<QueueTarget<Seq<char>>>,
        }),
{
    match item {
        SearchResultItem::Track(t) => Some(QueueTarget::Track { id: extract_id(&t.id), name: t.title.clone() }),
        SearchResultItem::Album(a) => Some(QueueTarget::Album { id: a.id.clone(), name: a.album.clone() }),
        SearchResultItem::Artist(a) => Some(QueueTarget::Artist { id: a.id.clone(), name: a.artist.clone() }),
        SearchResultItem::Playlist(p) => Some(QueueTarget::Playlist { id: p.id.clone(), name: p.name.clone() }),
        _ => None,
    }
}

/// The queue target of the selected row.
pub fn current_queue_target(app: &App) -> (r: Option<QueueTarget<String>>)
    ensures
        opt_queue_target_v(r) == spec_queue_target(*app),
{
    let i = app.main_selected;
    match &app.main_view {
        MainView::Library(LibraryView::Artists) => if i < app.artists.len() {
            Some(QueueTarget::Artist { id: app.artists[i].id.clone(), name: app.artists[i].artist.clone() })
        } else {
            None
        },
        MainView::Library(LibraryView::AlbumArtists) => if i < app.album_artists.len() {
            Some(QueueTarget::Artist { id: app.album_artists[i].id.clone(), name: app.album_artists[i].artist.clone() })
        } else {
            None
        },
        MainView::Library(LibraryView::Albums { .. }) => if i < app.albums.len() {
            Some(QueueTarget::Album { id: app.albums[i].id.clone(), name: app.albums[i].album.clone() })
        } else {
            None
        },
        MainView::Library(LibraryView::Tracks { .. }) => if i < app.tracks.len() {
            Some(QueueTarget::Track { id: extract_id(&app.tracks[i].id), name: app.tracks[i].title.clone() })
        } else {
            None
        },
        MainView::Library(LibraryView::Playlists) => if i < app.playlists.len() {
            Some(QueueTarget::Playlist { id: app.playlists[i].id.clone(), name: app.playlists[i].name.clone() })
        } else {
            None
        },
        MainView::Library(LibraryView::Folder { .. }) => if i < app.folder_items.len() {
            let item = &app.folder_items[i];
            match item.item_type {
                FolderItemType::Track => Some(QueueTarget::FolderTrack { id: u64_to_string(item.id as u64), name: item.filename.clone() }),
                FolderItemType::Folder => Some(QueueTarget::FolderFolder { id: item.id, name: item.filename.clone() }),
            }
        } else {
            None
        },
        MainView::Radio => url_target_exec(&app.radio_items, i),
        MainView::Apps => url_target_exec(&app.app_items, i),
        MainView::AppSearch { .. } => url_target_exec(&app.app_search_results, i),
        MainView::Favourites => url_target_exec(&app.fav_items, i),
        MainView::Search => if i < app.search_results.len() {
            search_queue_target(&app.search_results[i])
        } else {
            None
        },
        _ => None,
    }
}

/// Status text after appending.
pub open spec fn added_msg(name: Seq<char>) -> Seq<char> {
    "Added \""@ + name + "\" to queue"@
}

/// Status text after appending a folder.
pub open spec fn added_folder_msg(name: Seq<char>) -> Seq<char> {
    "Added folder \""@ + name + "\" to queue"@
}

/// Status text after playing a folder.
pub open spec fn playing_folder_msg(name: Seq<char>) -> Seq<char> {
    "Playing folder \""@ + name + "\""@
}

/// Status text after inserting as the next track.
pub open spec fn next_msg(name: Seq<char>) -> Seq<char> {
    "\""@ + name + "\" will play next"@
}

/// Status text when no player is active.
pub open spec fn no_player_msg() -> Seq<char> {
    "No active player"@
}

/// The request that appends target `t` to player `p`'s queue; playback starts after it when
/// the queue was empty.
pub open spec fn add_effect(t: QueueTarget<Seq<char>>, p: Seq<char>, was_empty: bool) -> EffectV {
    match t {
        QueueTarget::Artist { id, name } => EffectV::Enqueue(Call::AddArtistToQueue(p, id), p, was_empty, added_msg(name)),
        QueueTarget::Album { id, name } => EffectV::Enqueue(Call::AddAlbumToQueue(p, id), p, was_empty, added_msg(name)),
        QueueTarget::Track { id, name } => EffectV::Enqueue(Call::AddTrackToQueue(p, id), p, was_empty, added_msg(name)),
        QueueTarget::FolderTrack { id, name } => EffectV::Enqueue(Call::AddTrackToQueue(p, id), p, was_empty, added_msg(name)),
        QueueTarget::Playlist { id, name } => EffectV::Enqueue(Call::AddPlaylistToQueue(p, id), p, was_empty, added_msg(name)),
        QueueTarget::FolderFolder { id, name } => EffectV::Enqueue(Call::AddFolderToQueue(p, id), p, was_empty, added_folder_msg(name)),
        QueueTarget::Url { url, name } => EffectV::AddUrl(p, url, name, was_empty),
    }
}

/// The request that replaces player `p`'s queue with target `t` and plays it.
pub open spec fn replace_effect(t: QueueTarget<Seq<char>>, p: Seq<char>) -> EffectV {
    match t {
        QueueTarget::Artist { id, name } => EffectV::Report(Call::PlayArtist(p, id), playing_msg(name)),
        QueueTarget::Album { id, name } => EffectV::Report(Call::PlayAlbum(p, id), playing_msg(name)),
        QueueTarget::Track { id, name } => EffectV::Report(Call::PlayTrack(p, id), playing_msg(name)),
        QueueTarget::FolderTrack { id, name } => EffectV::Report(Call::PlayTrack(p, id), playing_msg(name)),
        QueueTarget::Playlist { id, name } => EffectV::Report(Call::PlayPlaylist(p, id), playing_msg(name)),
        QueueTarget::FolderFolder { id, name } => EffectV::Report(Call::PlayFolder(p, id), playing_folder_msg(name)),
        QueueTarget::Url { url, name } => EffectV::ReplaceWithUrl(p, url, name),
    }
}

fn add_effect_exec(t: QueueTarget<String>, p: String, was_empty: bool) -> (r: Effect<String, Vec<(String, String)>, Vec<String>>)
    ensures
        crate::effects::effect_v(r) == add_effect(queue_target_v(t), p@, was_empty),
{
    match t {
        QueueTarget::Artist { id, name } => Effect::Enqueue(Call::AddArtistToQueue(p.clone(), id), p, was_empty, concat3("Added \"", name.as_str(), "\" to queue")),
        QueueTarget::Album { id, name } => Effect::Enqueue(Call::AddAlbumToQueue(p.clone(), id), p, was_empty, concat3("Added \"", name.as_str(), "\" to queue")),
        QueueTarget::Track { id, name } => Effect::Enqueue(Call::AddTrackToQueue(p.clone(), id), p, was_empty, concat3("Added \"", name.as_str(), "\" to queue")),
        QueueTarget::FolderTrack { id, name } => Effect::Enqueue(Call::AddTrackToQueue(p.clone(), id), p, was_empty, concat3("Added \"", name.as_str(), "\" to queue")),
        QueueTarget::Playlist { id, name } => Effect::Enqueue(Call::AddPlaylistToQueue(p.clone(), id), p, was_empty, concat3("Added \"", name.as_str(), "\" to queue")),
        QueueTarget::FolderFolder { id, name } => Effect::Enqueue(Call::AddFolderToQueue(p.clone(), id), p, was_empty, concat3("Added folder \"", name.as_str(), "\" to queue")),
        QueueTarget::Url { url, name } => Effect::AddUrl(p, url, name, was_empty),
    }
}

fn replace_effect_exec(t: QueueTarget<String>, p: String) -> (r: Effect<String, Vec<(String, String)>, Vec<String>>)
    ensures
        crate::effects::effect_v(r) == replace_effect(queue_target_v(t), p@),
{
    match t {
        QueueTarget::Artist { id, name } => Effect::Report(Call::PlayArtist(p, id), concat3("Playing \"", name.as_str(), "\"")),
        QueueTarget::Album { id, name } => Effect::Report(Call::PlayAlbum(p, id), concat3("Playing \"", name.as_str(), "\"")),
        QueueTarget::Track { id, name } => Effect::Report(Call::PlayTrack(p, id), concat3("Playing \"", name.as_str(), "\"")),
        QueueTarget::FolderTrack { id, name } => Effect::Report(Call::PlayTrack(p, id), concat3("Playing \"", name.as_str(), "\"")),
        QueueTarget::Playlist { id, name } => Effect::Report(Call::PlayPlaylist(p, id), concat3("Playing \"", name.as_str(), "\"")),
        QueueTarget::FolderFolder { id, name } => Effect::Report(Call::PlayFolder(p, id), concat3("Playing folder \"", name.as_str(), "\"")),
        QueueTarget::Url { url, name } => Effect::ReplaceWithUrl(p, url, name),
    }
}

/// Without an active player the status line says so and nothing else changes.
pub open spec fn no_player_post(old: App, new: App, effects: Seq<EffectV>) -> bool {
    &&& new == (App { status_message: new.status_message, ..old })
    &&& new.status_message matches Some(m) && m@ == no_player_msg()
    &&& effects.len() == 0
}

fn report_no_player(app: &mut App)
    ensures
        *final(app) == (App { status_message: final(app).status_message, ..*old(app) }),
        final(app).status_message matches Some(m) && m@ == no_player_msg(),
{
    app.status_message = Some(to_owned_string("No active player"));
}

/// Appending the selected item to the active player's queue (see `add_effect`).
pub open spec fn add_to_queue_post(old: App, new: App, effects: Seq<EffectV>) -> bool {
    match old.active_player {
        None => no_player_post(old, new, effects),
        Some(p) => new == old && effects == (match spec_queue_target(old) {
            Some(t) => seq![add_effect(t, p@, old.queue@.len() == 0)],
            None => Seq::empty(),
        }),
    }
}

/// Appends the selected item to the active player's queue.
pub fn handle_add_to_queue(app: &mut App) -> (r: Effects)
    ensures
        add_to_queue_post(*old(app), *final(app), effects_v(r)),
{
    let pid = match app.active_pid() {
        Some(p) => p,
        None => {
            report_no_player(app);
            return no_effects();
        },
    };
    let was_empty = app.queue.len() == 0;
    match current_queue_target(app) {
        Some(t) => one_effect(add_effect_exec(t, pid, was_empty)),
        None => no_effects(),
    }
}

/// Replacing the active player's queue with the selected item (see `replace_effect`).
pub open spec fn replace_queue_post(old: App, new: App, effects: Seq<EffectV>) -> bool {
    match old.active_player {
        None => no_player_post(old, new, effects),
        Some(p) => new == old && effects == (match spec_queue_target(old) {
            Some(t) => seq![replace_effect(t, p@)],
            None => Seq::empty(),
        }),
    }
}

/// Plays the selected item now, replacing the active player's queue.
pub fn handle_replace_queue(app: &mut App) -> (r: Effects)
    ensures
        replace_queue_post(*old(app), *final(app), effects_v(r)),
{
    let pid = match app.active_pid() {
        Some(p) => p,
        None => {
            report_no_player(app);
            return no_effects();
        },
    };
    match current_queue_target(app) {
        Some(t) => one_effect(replace_effect_exec(t, pid)),
        None => no_effects(),
    }
}

/// The (title, url) entries of `items` that carry a url, in order.
pub open spec fn url_items(items: Seq<RadioItem>) -> Seq<(Seq<char>, Seq<char>)>
    decreases items.len(),
{
    if items.len() == 0 {
        Seq::empty()
    } else {
        let rest = url_items(items.drop_last());
        match items.last().url {
            Some(u) => rest.push((items.last().name@, u@)),
            None => rest,
        }
    }
}

/// The (title, url) entries of `items` that carry a url.
pub fn collect_url_items(items: &Vec<RadioItem>) -> (r: Vec<(String, String)>)
    ensures
        pairs_v(r) == url_items(items@),
{
    let mut out: Vec<(String, String)> = Vec::new();
    let mut i: usize = 0;
    while i < items.len()
        invariant
            i <= items@.len(),
            pairs_v(out) == url_items(items@.take(i as int)),
        decreases items@.len() - i,
    {
        let ghost pre = items@.take(i as int);
        assert(items@.take(i + 1).drop_last() =~= pre);
        assert(items@.take(i + 1).last() == items@[i as int]);
        match &items[i].url {
            Some(u) => {
                let ghost before = out@;
                out.push((items[i].name.clone(), u.clone()));
                assert(pairs_v(out) =~= pairs_v(out).take(before.len() as int).push((items@[i as int].name@, u@)));
                assert(pairs_v(out).take(before.len() as int) =~= before.map_values(|p: (String, String)| (p.0@, p.1@)));
            },
            None => {},
        }
        i += 1;
    }
    assert(items@.take(items@.len() as int) =~= items@);
    out
}

/// The container being browsed: the album of an album's track list (named from the album
/// list, "album" when not listed), the current level of the radio, apps and favourites trees
/// (its entries with urls), or a sub-folder of the folder browser.
pub open spec fn spec_parent_target(app: App) -> Option<ParentTarget<Seq<char>, Seq<(Seq<char>, Seq<char>)>>> {
    match app.main_view {
        MainView::Library(LibraryView::Tracks { album_id: Some(id) }) => Some(ParentTarget::Album { id: id@, name: spec_album_name(app.albums@, id@) }),
        MainView::Radio => Some(ParentTarget::UrlFolder { items: url_items(app.radio_items@), title: app.radio_title@ }),
        MainView::Apps => Some(ParentTarget::UrlFolder { items: url_items(app.app_items@), title: app.app_title@ }),
        MainView::Favourites => Some(ParentTarget::UrlFolder { items: url_items(app.fav_items@), title: app.fav_title@ }),
        MainView::Library(LibraryView::Folder { folder_id: Some(f) }) => Some(ParentTarget::Folder { id: f, name: app.folder_title@ }),
        _ => None,
    }
}

pub open spec fn parent_target_v(t: ParentTarget<String, Vec<(String, String)>>) -> ParentTarget<Seq<char>, Seq<(Seq<char>, Seq<char>)>> {
    match t {
        ParentTarget::Album { id, name } => ParentTarget::Album { id: id@, name: name@ },
        ParentTarget::Folder { id, name } => ParentTarget::Folder { id, name: name@ },
        ParentTarget::UrlFolder { items, title } => ParentTarget::UrlFolder { items: pairs_v(items), title: title@ },
    }
}

/// The container being browsed.
pub fn current_parent_target(app: &App) -> (r: Option<ParentTarget<String, Vec<(String, String)>>>)
    ensures
        match r {
            Some(t) => spec_parent_target(*app) == Some(parent_target_v(t)),
            None => spec_parent_target(*app).is_none(),
        },
{
    match &app.main_view {
        MainView::Library(LibraryView::Tracks { album_id: Some(id) }) => Some(ParentTarget::Album { id: id.clone(), name: album_name(&app.albums, id.as_str()) }),
        MainView::Radio => Some(ParentTarget::UrlFolder { items: collect_url_items(&app.radio_items), title: app.radio_title.clone() }),
        MainView::Apps => Some(ParentTarget::UrlFolder { items: collect_url_items(&app.app_items), title: app.app_title.clone() }),
        MainView::Favourites => Some(ParentTarget::UrlFolder { items: collect_url_items(&app.fav_items), title: app.fav_title.clone() }),
        MainView::Library(LibraryView::Folder { folder_id: Some(f) }) => Some(ParentTarget::Folder { id: *f, name: app.folder_title.clone() }),
        _ => None,
    }
}

/// The request that appends container `t` to player `p`'s queue.
pub open spec fn add_parent_effect(t: ParentTarget<Seq<char>, Seq<(Seq<char>, Seq<char>)>>, p: Seq<char>, was_empty: bool) -> EffectV {
    match t {
        ParentTarget::Album { id, name } => EffectV::Enqueue(Call::AddAlbumToQueue(p, id), p, was_empty, added_msg(name)),
        ParentTarget::Folder { id, name } => EffectV::Enqueue(Call::AddFolderToQueue(p, id), p, was_empty, added_msg(name)),
        ParentTarget::UrlFolder { items, title } => EffectV::AddUrlFolder(p, items, title, was_empty),
    }
}

/// The request that replaces player `p`'s queue with container `t` and plays it.
pub open spec fn replace_parent_effect(t: ParentTarget<Seq<char>, Seq<(Seq<char>, Seq<char>)>>, p: Seq<char>) -> EffectV {
    match t {
        ParentTarget::Album { id, name } => EffectV::Report(Call::PlayAlbum(p, id), playing_msg(name)),
        ParentTarget::Folder { id, name } => EffectV::Report(Call::PlayFolder(p, id), playing_msg(name)),
        ParentTarget::UrlFolder { items, title } => EffectV::ReplaceWithUrlFolder(p, items, title),
    }
}

/// Appending the container being browsed to the active player's queue.
pub open spec fn add_parent_post(old: App, new: App, effects: Seq<EffectV>) -> bool {
    match old.active_player {
        None => no_player_post(old, new, effects),
        Some(p) => new == old && effects == (match spec_parent_target(old) {
            Some(t) => seq![add_parent_effect(t, p@, old.queue@.len() == 0)],
            None => Seq::empty(),
        }),
    }
}

/// Appends the container being browsed to the active player's queue.
pub fn handle_add_parent_to_queue(app: &mut App) -> (r: Effects)
    ensures
        add_parent_post(*old(app), *final(app), effects_v(r)),
{
    let pid = match app.active_pid() {
        Some(p) => p,
        None => {
            report_no_player(app);
            return no_effects();
        },
    };
    let was_empty = app.queue.len() == 0;
    match current_parent_target(app) {
        Some(t) => {
            let e = match t {
                ParentTarget::Album { id, name } => Effect::Enqueue(Call::AddAlbumToQueue(pid.clone(), id), pid, was_empty, concat3("Added \"", name.as_str(), "\" to queue")),
                ParentTarget::Folder { id, name } => Effect::Enqueue(Call::AddFolderToQueue(pid.clone(), id), pid, was_empty, concat3("Added \"", name.as_str(), "\" to queue")),
                ParentTarget::UrlFolder { items, title } => Effect::AddUrlFolder(pid, items, title, was_empty),
            };
            one_effect(e)
        },
        None => no_effects(),
    }
}

/// Replacing the active player's queue with the container being browsed.
pub open spec fn replace_parent_post(old: App, new: App, effects: Seq<EffectV>) -> bool {
    match old.active_player {
        None => no_player_post(old, new, effects),
        Some(p) => new == old && effects == (match spec_parent_target(old) {
            Some(t) => seq![replace_parent_effect(t, p@)],
            None => Seq::empty(),
        }),
    }
}

/// Plays the container being browsed now, replacing the active player's queue.
pub fn handle_replace_queue_with_parent(app: &mut App) -> (r: Effects)
    ensures
        replace_parent_post(*old(app), *final(app), effects_v(r)),
{
    let pid = match app.active_pid() {
        Some(p) => p,
        None => {
            report_no_player(app);
            return no_effects();
        },
    };
    match current_parent_target(app) {
        Some(t) => {
            let e = match t {
                ParentTarget::Album { id, name } => Effect::Report(Call::PlayAlbum(pid, id), concat3("Playing \"", name.as_str(), "\"")),
                ParentTarget::Folder { id, name } => Effect::Report(Call::PlayFolder(pid, id), concat3("Playing \"", name.as_str(), "\"")),
                ParentTarget::UrlFolder { items, title } => Effect::ReplaceWithUrlFolder(pid, items, title),
            };
            one_effect(e)
        },
        None => no_effects(),
    }
}

/// The "play next" request for a stream entry of `items` at `i` that has a url.
pub open spec fn url_next(items: Seq<RadioItem>, i: int, p: Seq<char>) -> Seq<EffectV> {
    if 0 <= i < items.len() {
        match items[i].url {
            Some(u) => seq![EffectV::Report(Call::InsertUrlNextWithTitle(p, u@, items[i].name@), next_msg(items[i].name@))],
            None => Seq::empty(),
        }
    } else {
        Seq::empty()
    }
}

/// The request that makes the selected item play next on player `p`: a playlist or a track
/// of the library lists, the queue (when the row has an id), the search results or a folder
/// listing; a stream entry with a url of the radio, apps, in-app search and favourites lists.
pub open spec fn insert_next_effects(app: App, p: Seq<char>) -> Seq<EffectV> {
    let i = app.main_selected as int;
    match app.main_view {
        MainView::Library(LibraryView::Playlists) => if 0 <= i < app.playlists@.len() {
            let pl = app.playlists@[i];
            seq![EffectV::Report(Call::InsertPlaylistNext(p, pl.id@), next_msg(pl.name@))]
        } else {
            Seq::empty()
        },
        MainView::Library(LibraryView::Tracks { .. }) => if 0 <= i < app.tracks@.len() {
            let t = app.tracks@[i];
            seq![EffectV::Report(Call::InsertTrackNext(p, track_id_text(t.id)), next_msg(t.title@))]
        } else {
            Seq::empty()
        },
        MainView::Queue => if 0 <= i < app.queue@.len() {
            let t = app.queue@[i];
            match t.id {
                Some(id) => seq![EffectV::Report(Call::InsertTrackNext(p, id@), next_msg(t.title@))],
                None => Seq::empty(),
            }
        } else {
            Seq::empty()
        },
        MainView::Library(LibraryView::Folder { .. }) => if 0 <= i < app.folder_items@.len()
            && app.folder_items@[i].item_type == FolderItemType::Track {
            let item = app.folder_items@[i];
            seq![EffectV::Report(Call::InsertTrackNext(p, spec_decimal(item.id as nat)), next_msg(item.filename@))]
        } else {
            Seq::empty()
        },
        MainView::Radio => url_next(app.radio_items@, i, p),
        MainView::Apps => url_next(app.app_items@, i, p),
        MainView::AppSearch { .. } => url_next(app.app_search_results@, i, p),
        MainView::Favourites => url_next(app.fav_items@, i, p),
        MainView::Search => if 0 <= i < app.search_results@.len() {
            match app.search_results@[i] {
                SearchResultItem::Track(t) => seq![EffectV::Report(Call::InsertTrackNext(p, track_id_text(t.id)), next_msg(t.title@))],
                SearchResultItem::Playlist(pl) => seq![EffectV::Report(Call::InsertPlaylistNext(p, pl.id@), next_msg(pl.name@))],
                _ => Seq::empty(),
            }
        } else {
            Seq::empty()
        },
        _ => Seq::empty(),
    }
}

fn next_text(name: &str) -> (r: String)
    ensures
        r@ == next_msg(name@),
{
    concat3("\"", name, "\" will play next")
}

fn url_next_exec(items: &Vec<RadioItem>, i: usize, p: String) -> (r: Effects)
    ensures
        effects_v(r) == url_next(items@, i as int, p@),
{
    if i < items.len() {
        match &items[i].url {
            Some(u) => one_effect(Effect::Report(
                Call::InsertUrlNextWithTitle(p, u.clone(), items[i].name.clone()),
                next_text(items[i].name.as_str()),
            )),
            None => no_effects(),
        }
    } else {
        no_effects()
    }
}

fn insert_next_for(app: &App, p: String) -> (r: Effects)
    ensures
        effects_v(r) == insert_next_effects(*app, p@),
{
    let i = app.main_selected;
    match &app.main_view {
        MainView::Library(LibraryView::Playlists) => if i < app.playlists.len() {
            let pl = &app.playlists[i];
            one_effect(Effect::Report(Call::InsertPlaylistNext(p, pl.id.clone()), next_text(pl.name.as_str())))
        } else {
            no_effects()
        },
        MainView::Library(LibraryView::Tracks { .. }) => if i < app.tracks.len() {
            let t = &app.tracks[i];
            one_effect(Effect::Report(Call::InsertTrackNext(p, extract_id(&t.id)), next_text(t.title.as_str())))
        } else {
            no_effects()
        },
        MainView::Queue => if i < app.queue.len() {
            let t = &app.queue[i];
            match &t.id {
                Some(id) => one_effect(Effect::Report(Call::InsertTrackNext(p, id.clone()), next_text(t.title.as_str()))),
                None => no_effects(),
            }
        } else {
            no_effects()
        },
        MainView::Library(LibraryView::Folder { .. }) => if i < app.folder_items.len()
            && app.folder_items[i].item_type == FolderItemType::Track {
            let item = &app.folder_items[i];
            one_effect(Effect::Report(Call::InsertTrackNext(p, u64_to_string(item.id as u64)), next_text(item.filename.as_str())))
        } else {
            no_effects()
        },
        MainView::Radio => url_next_exec(&app.radio_items, i, p),
        MainView::Apps => url_next_exec(&app.app_items, i, p),
        MainView::AppSearch { .. } => url_next_exec(&app.app_search_results, i, p),
        MainView::Favourites => url_next_exec(&app.fav_items, i, p),
        MainView::Search => if i < app.search_results.len() {
            match &app.search_results[i] {
                SearchResultItem::Track(t) => one_effect(Effect::Report(Call::InsertTrackNext(p, extract_id(&t.id)), next_text(t.title.as_str()))),
                SearchResultItem::Playlist(pl) => one_effect(Effect::Report(Call::InsertPlaylistNext(p, pl.id.clone()), next_text(pl.name.as_str()))),
                _ => no_effects(),
            }
        } else {
            no_effects()
        },
        _ => no_effects(),
    }
}

/// Making the selected item play next on the active player (see `insert_next_effects`).
pub open spec fn insert_next_post(old: App, new: App, effects: Seq<EffectV>) -> bool {
    match old.active_player {
        None => no_player_post(old, new, effects),
        Some(p) => new == old && effects == insert_next_effects(old, p@),
    }
}

/// Makes the selected item play next on the active player.
pub fn handle_insert_next(app: &mut App) -> (r: Effects)
    ensures
        insert_next_post(*old(app), *final(app), effects_v(r)),
{
    match app.active_pid() {
        Some(p) => insert_next_for(app, p),
        None => {
            report_no_player(app);
            no_effects()
        },
    }
}

/// The favourites url of a library track.
pub open spec fn track_fav_url(id: Option<String>) -> Seq<char> {
    "db:track.id="@ + track_id_text(id)
}

/// The (url, title) of a stream entry of `items` at `i` that has a url.
pub open spec fn url_fav(items: Seq<RadioItem>, i: int) -> Option<(Seq<char>, Seq<char>)> {
    if 0 <= i < items.len() {
        match items[i].url {
            Some(u) => Some((u@, items[i].name@)),
            None => None,
        }
    } else {
        None
    }
}

/// What can be added to favourites from the current view: `None` when the view offers
/// nothing to add; otherwise the (url, title) of the selected track (library or search) or
/// stream entry (radio, apps, in-app search), if there is one.
pub open spec fn fav_target(app: App) -> Option<Option<(Seq<char>, Seq<char>)>> {
    let i = app.main_selected as int;
    match app.main_view {
        MainView::Library(LibraryView::Tracks { .. }) => Some(if 0 <= i < app.tracks@.len() {
            Some((track_fav_url(app.tracks@[i].id), app.tracks@[i].title@))
        } else {
            None
        }),
        MainView::Radio => Some(url_fav(app.radio_items@, i)),
        MainView::Apps => Some(url_fav(app.app_items@, i)),
        MainView::AppSearch { .. } => Some(url_fav(app.app_search_results@, i)),
        MainView::Search => Some(if 0 <= i < app.search_results@.len() && app.search_results@[i] is Track {
            let t = app.search_results@[i]->Track_0;
            Some((track_fav_url(t.id), t.title@))
        } else {
            None
        }),
        _ => None,
    }
}

/// Status text when the view offers nothing to add to favourites.
pub open spec fn cannot_fav_msg() -> Seq<char> {
    "Cannot add this item to favourites"@
}

/// Adding the selected item to the active player's favourites (see `fav_target`); in a view
/// that offers nothing, the status line says so.
pub open spec fn add_to_favorites_post(old: App, new: App, effects: Seq<EffectV>) -> bool {
    match old.active_player {
        None => no_player_post(old, new, effects),
        Some(p) => match fav_target(old) {
            None => {
                &&& new == (App { status_message: new.status_message, ..old })
                &&& new.status_message matches Some(m) && m@ == cannot_fav_msg()
                &&& effects.len() == 0
            },
            Some(None) => new == old && effects.len() == 0,
            Some(Some((url, title))) => new == old && effects == seq![EffectV::Favourite(p@, url, title)],
        },
    }
}

fn url_fav_exec(items: &Vec<RadioItem>, i: usize) -> (r: Option<(String, String)>)
    ensures
        match r {
            Some(x) => url_fav(items@, i as int) == Some((x.0@, x.1@)),
            None => url_fav(items@, i as int).is_none(),
        },
{
    if i < items.len() {
        match &items[i].url {
            Some(u) => Some((u.clone(), items[i].name.clone())),
            None => None,
        }
    } else {
        None
    }
}

fn fav_target_exec(app: &App) -> (r: Option<Option<(String, String)>>)
    ensures
        match r {
            None => fav_target(*app).is_none(),
            Some(None) => fav_target(*app) == Some(None::<(Seq<char>, Seq<char>)>),
            Some(Some(x)) => fav_target(*app) == Some(Some((x.0@, x.1@))),
        },
{
    let i = app.main_selected;
    match &app.main_view {
        MainView::Library(LibraryView::Tracks { .. }) => Some(if i < app.tracks.len() {
            Some((concat2("db:track.id=", extract_id(&app.tracks[i].id).as_str()), app.tracks[i].title.clone()))
        } else {
            None
        }),
        MainView::Radio => Some(url_fav_exec(&app.radio_items, i)),
        MainView::Apps => Some(url_fav_exec(&app.app_items, i)),
        MainView::AppSearch { .. } => Some(url_fav_exec(&app.app_search_results, i)),
        MainView::Search => Some(if i < app.search_results.len() {
            match &app.search_results[i] {
                SearchResultItem::Track(t) => Some((concat2("db:track.id=", extract_id(&t.id).as_str()), t.title.clone())),
                _ => None,
            }
        } else {
            None
        }),
        _ => None,
    }
}

/// Adds the selected item to the active player's favourites.
pub fn handle_add_to_favorites(app: &mut App) -> (r: Effects)
    ensures
        add_to_favorites_post(*old(app), *final(app), effects_v(r)),
{
    let pid = match app.active_pid() {
        Some(p) => p,
        None => {
            report_no_player(app);
            return no_effects();
        },
    };
    match fav_target_exec(app) {
        None => {
            app.status_message = Some(to_owned_string("Cannot add this item to favourites"));
            no_effects()
        },
        Some(None) => no_effects(),
        Some(Some((url, title))) => one_effect(Effect::Favourite(pid, url, title)),
    }
}

} // verus!
