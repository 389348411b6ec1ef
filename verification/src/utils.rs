//! Queries over the application state shared by the input handlers and the screens.
use vstd::prelude::*;
use vstd::string::*;
use crate::api::{
    FolderItemType, RadioItem, Album, clone_opt_string, music_image_url, opt_string_view,
    spec_music_image_url,
};
use crate::app::{App, LibraryView, MainView, SearchResultItem, MY_MUSIC_ENTRIES};
pub use crate::thumbs::thumbnail_url_for;
use crate::text::{concat3, to_owned_string, u64_to_string, spec_decimal};

verus! {

/// Number of rows of the list shown in the main panel (the queue in full-art mode).
pub open spec fn spec_main_list_len(app: App) -> nat {
    if app.full_art_mode {
        app.queue@.len()
    } else {
        match app.main_view {
            MainView::MyMusic => 8,
            MainView::Library(LibraryView::Artists) => app.artists@.len(),
            MainView::Library(LibraryView::AlbumArtists) => app.album_artists@.len(),
            MainView::Library(LibraryView::Albums { .. }) => app.albums@.len(),
            MainView::Library(LibraryView::Tracks { .. }) => app.tracks@.len(),
            MainView::Library(LibraryView::Folder { .. }) => app.folder_items@.len(),
            MainView::Library(LibraryView::Playlists) => app.playlists@.len(),
            MainView::Library(LibraryView::RecentlyPlayedArtists) => app.recent_artists@.len(),
            MainView::Library(LibraryView::PopularAlbums) => app.popular_albums@.len(),
            MainView::Queue => app.queue@.len(),
            MainView::Players => app.players@.len(),
            MainView::Radio => app.radio_items@.len(),
            MainView::Apps => app.app_items@.len(),
            MainView::Favourites => app.fav_items@.len(),
            MainView::Help => 0,
            MainView::Search => app.search_results@.len(),
            MainView::AppSearch { .. } => app.app_search_results@.len(),
        }
    }
}

/// Number of rows of the main panel's list.
pub fn main_list_len(app: &App) -> (r: usize)
    ensures
        r == spec_main_list_len(*app),
{
    if app.full_art_mode {
        return app.queue.len();
    }
    match &app.main_view {
        MainView::MyMusic => MY_MUSIC_ENTRIES,
        MainView::Library(LibraryView::Artists) => app.artists.len(),
        MainView::Library(LibraryView::AlbumArtists) => app.album_artists.len(),
        MainView::Library(LibraryView::Albums { .. }) => app.albums.len(),
        MainView::Library(LibraryView::Tracks { .. }) => app.tracks.len(),
        MainView::Library(LibraryView::Folder { .. }) => app.folder_items.len(),
        MainView::Library(LibraryView::Playlists) => app.playlists.len(),
        MainView::Library(LibraryView::RecentlyPlayedArtists) => app.recent_artists.len(),
        MainView::Library(LibraryView::PopularAlbums) => app.popular_albums.len(),
        MainView::Queue => app.queue.len(),
        MainView::Players => app.players.len(),
        MainView::Radio => app.radio_items.len(),
        MainView::Apps => app.app_items.len(),
        MainView::Favourites => app.fav_items.len(),
        MainView::Help => 0,
        MainView::Search => app.search_results.len(),
        MainView::AppSearch { .. } => app.app_search_results.len(),
    }
}

/// A dialog or menu covers the screen.
pub open spec fn spec_has_overlay(app: App) -> bool {
    app.confirm_delete_queue_item.is_some() || app.confirm_clear_queue || app.confirm_quit
        || app.config_modal.is_some() || app.context_menu.is_some() || app.sync_modal.is_some()
}

/// Whether a dialog or menu is open.
pub fn has_overlay(app: &App) -> (r: bool)
    ensures
        r == spec_has_overlay(*app),
{
    app.confirm_delete_queue_item.is_some() || app.confirm_clear_queue || app.confirm_quit
        || app.config_modal.is_some() || app.context_menu.is_some() || app.sync_modal.is_some()
}

pub open spec fn spec_uses_two_row_layout(view: MainView) -> bool {
    !(view is Players || view is Help || view is MyMusic || view is AppSearch)
}

/// Lists of this view draw two rows per item (everything but Players, Help, My Music and
/// in-app search).
pub fn uses_two_row_layout(view: &MainView) -> (r: bool)
    ensures
        r == spec_uses_two_row_layout(*view),
{
    !matches!(view, MainView::Players | MainView::Help | MainView::MyMusic | MainView::AppSearch { .. })
}

/// A browse entry at `idx` that is played directly rather than opened.
pub open spec fn leaf_playable_at(items: Seq<RadioItem>, idx: int) -> bool {
    0 <= idx < items.len() && items[idx].spec_is_playable() && !items[idx].spec_is_navigable()
}

fn leaf_playable_at_exec(items: &Vec<RadioItem>, idx: usize) -> (r: bool)
    ensures
        r == leaf_playable_at(items@, idx as int),
{
    idx < items.len() && items[idx].is_playable() && !items[idx].is_navigable()
}

/// The selected main-panel item is something to play (so selecting it opens the context
/// menu rather than navigating).
pub open spec fn spec_is_main_item_playable(app: App) -> bool {
    let i = app.main_selected as int;
    match app.main_view {
        MainView::Library(LibraryView::Tracks { .. }) => app.tracks@.len() > 0,
        MainView::Library(LibraryView::Folder { .. }) => 0 <= i < app.folder_items@.len()
            && app.folder_items@[i].item_type == FolderItemType::Track,
        MainView::Radio => leaf_playable_at(app.radio_items@, i),
        MainView::Apps => leaf_playable_at(app.app_items@, i),
        MainView::Favourites => leaf_playable_at(app.fav_items@, i),
        MainView::Search => 0 <= i < app.search_results@.len() && (app.search_results@[i] is Track
            || app.search_results@[i] is Playlist),
        MainView::AppSearch { .. } => 0 <= i < app.app_search_results@.len()
            && app.app_search_results@[i].spec_is_playable(),
        _ => false,
    }
}

/// Whether the selected main-panel item is something to play.
pub fn is_main_item_playable(app: &App) -> (r: bool)
    ensures
        r == spec_is_main_item_playable(*app),
{
    let i = app.main_selected;
    match &app.main_view {
        MainView::Library(LibraryView::Tracks { .. }) => app.tracks.len() > 0,
        MainView::Library(LibraryView::Folder { .. }) => i < app.folder_items.len()
            && app.folder_items[i].item_type == FolderItemType::Track,
        MainView::Radio => leaf_playable_at_exec(&app.radio_items, i),
        MainView::Apps => leaf_playable_at_exec(&app.app_items, i),
        MainView::Favourites => leaf_playable_at_exec(&app.fav_items, i),
        MainView::Search => i < app.search_results.len() && matches!(
            app.search_results[i],
            SearchResultItem::Track(_) | SearchResultItem::Playlist(_)
        ),
        MainView::AppSearch { .. } => i < app.app_search_results.len()
            && app.app_search_results[i].is_playable(),
        _ => false,
    }
}

/// The two parent-queue labels for container `name` (a folder-like list or a single item).
pub open spec fn spec_queue_labels(name: Seq<char>, folder: bool) -> (Seq<char>, Seq<char>) {
    if folder {
        ("Add \""@ + name + "\" folder to queue"@, "Replace queue with \""@ + name + "\" folder"@)
    } else {
        ("Add \""@ + name + "\" to queue"@, "Replace queue with \""@ + name + "\""@)
    }
}

/// The context-menu labels that act on the container `name`.
pub fn queue_labels(name: &str, folder: bool) -> (r: (Option<String>, Option<String>))
    ensures
        r.0.is_some() && r.1.is_some(),
        (r.0.unwrap()@, r.1.unwrap()@) == spec_queue_labels(name@, folder),
{
    if folder {
        (Some(concat3("Add \"", name, "\" folder to queue")), Some(concat3("Replace queue with \"", name, "\" folder")))
    } else {
        (Some(concat3("Add \"", name, "\" to queue")), Some(concat3("Replace queue with \"", name, "\"")))
    }
}

/// The name of the first album with id `id`, or "album" when none is listed.
pub open spec fn spec_album_name(albums: Seq<Album>, id: Seq<char>) -> Seq<char>
    decreases albums.len(),
{
    if albums.len() == 0 {
        "album"@
    } else if albums[0].id@ == id {
        albums[0].album@
    } else {
        spec_album_name(albums.drop_first(), id)
    }
}

/// Looks up the name of album `id`.
pub fn album_name(albums: &Vec<Album>, id: &str) -> (r: String)
    ensures
        r@ == spec_album_name(albums@, id@),
{
    let mut i: usize = 0;
    assert(albums@.subrange(0, albums@.len() as int) =~= albums@);
    while i < albums.len()
        invariant
            i <= albums@.len(),
            spec_album_name(albums@.subrange(i as int, albums@.len() as int), id@) == spec_album_name(albums@, id@),
        decreases albums@.len() - i,
    {
        let ghost rest = albums@.subrange(i as int, albums@.len() as int);
        assert(rest.drop_first() =~= albums@.subrange(i + 1, albums@.len() as int));
        if crate::text::str_eq(albums[i].id.as_str(), id) {
            return albums[i].album.clone();
        }
        i += 1;
    }
    assert(albums@.subrange(i as int, albums@.len() as int).len() == 0);
    to_owned_string("album")
}

/// The parent-queue labels the context menu offers in the current view: the album of a
/// track list, the folder-like radio/app/favourites level when it has items, or a folder.
pub open spec fn spec_parent_labels(app: App) -> Option<(Seq<char>, Seq<char>)> {
    match app.main_view {
        MainView::Library(LibraryView::Tracks { album_id: Some(id) }) => Some(
            spec_queue_labels(spec_album_name(app.albums@, id@), false),
        ),
        MainView::Radio => if app.radio_items@.len() > 0 { Some(spec_queue_labels(app.radio_title@, true)) } else { None },
        MainView::Apps => if app.app_items@.len() > 0 { Some(spec_queue_labels(app.app_title@, true)) } else { None },
        MainView::Favourites => if app.fav_items@.len() > 0 { Some(spec_queue_labels(app.fav_title@, true)) } else { None },
        MainView::Library(LibraryView::Folder { folder_id: Some(_) }) => Some(spec_queue_labels(app.folder_title@, false)),
        _ => None,
    }
}

/// The parent-queue labels for the context menu of the current view.
pub fn compute_parent_labels(app: &App) -> (r: (Option<String>, Option<String>))
    ensures
        match spec_parent_labels(*app) {
            Some(l) => r.0.is_some() && r.1.is_some() && (r.0.unwrap()@, r.1.unwrap()@) == l,
            None => r.0.is_none() && r.1.is_none(),
        },
{
    match &app.main_view {
        MainView::Library(LibraryView::Tracks { album_id: Some(id) }) => {
            let name = album_name(&app.albums, id.as_str());
            queue_labels(name.as_str(), false)
        },
        MainView::Radio => if app.radio_items.len() > 0 { queue_labels(app.radio_title.as_str(), true) } else { (None, None) },
        MainView::Apps => if app.app_items.len() > 0 { queue_labels(app.app_title.as_str(), true) } else { (None, None) },
        MainView::Favourites => if app.fav_items.len() > 0 { queue_labels(app.fav_title.as_str(), true) } else { (None, None) },
        MainView::Library(LibraryView::Folder { folder_id: Some(_) }) => queue_labels(app.folder_title.as_str(), false),
        _ => (None, None),
    }
}

/// The artist id listed at row `idx` of an artist list (or an artist search result).
pub open spec fn spec_artist_id_at(app: App, idx: int) -> Option<Seq<char>> {
    match app.main_view {
        MainView::Library(LibraryView::Artists) => if 0 <= idx < app.artists@.len() { Some(app.artists@[idx].id@) } else { None },
        MainView::Library(LibraryView::AlbumArtists) => if 0 <= idx < app.album_artists@.len() { Some(app.album_artists@[idx].id@) } else { None },
        MainView::Library(LibraryView::RecentlyPlayedArtists) => if 0 <= idx < app.recent_artists@.len() { Some(app.recent_artists@[idx].id@) } else { None },
        MainView::Search => if 0 <= idx < app.search_results@.len() && app.search_results@[idx] is Artist {
            Some(app.search_results@[idx]->Artist_0.id@)
        } else {
            None
        },
        _ => None,
    }
}

/// The artist id at row `idx`, for lazy cover resolution.
pub fn artist_id_at(app: &App, idx: usize) -> (r: Option<String>)
    ensures
        opt_string_view(r) == spec_artist_id_at(*app, idx as int),
{
    match &app.main_view {
        MainView::Library(LibraryView::Artists) => if idx < app.artists.len() { Some(app.artists[idx].id.clone()) } else { None },
        MainView::Library(LibraryView::AlbumArtists) => if idx < app.album_artists.len() { Some(app.album_artists[idx].id.clone()) } else { None },
        MainView::Library(LibraryView::RecentlyPlayedArtists) => if idx < app.recent_artists.len() { Some(app.recent_artists[idx].id.clone()) } else { None },
        MainView::Search => if idx < app.search_results.len() {
            match &app.search_results[idx] {
                SearchResultItem::Artist(a) => Some(a.id.clone()),
                _ => None,
            }
        } else {
            None
        },
        _ => None,
    }
}

/// The folder id at row `idx` of a folder listing, for directory rows only.
pub open spec fn spec_folder_id_at(app: App, idx: int) -> Option<u32> {
    match app.main_view {
        MainView::Library(LibraryView::Folder { .. }) => if 0 <= idx < app.folder_items@.len()
            && app.folder_items@[idx].item_type != FolderItemType::Track {
            Some(app.folder_items@[idx].id)
        } else {
            None
        },
        _ => None,
    }
}

/// The folder id at row `idx`, for lazy cover resolution.
pub fn folder_id_at(app: &App, idx: usize) -> (r: Option<u32>)
    ensures
        r == spec_folder_id_at(*app, idx as int),
{
    match &app.main_view {
        MainView::Library(LibraryView::Folder { .. }) => if idx < app.folder_items.len()
            && app.folder_items[idx].item_type != FolderItemType::Track {
            Some(app.folder_items[idx].id)
        } else {
            None
        },
        _ => None,
    }
}

/// Width in columns of a square art cell `status_height - 2` rows tall for a font of
/// `fw` x `fh` pixels (each taken as at least 1), at least 4 columns, narrowed to 16 bits.
pub open spec fn spec_art_col_width(status_height: u16, font: (u16, u16)) -> u16 {
    let fw: int = if font.0 > 1 { font.0 as int } else { 1 };
    let fh: int = if font.1 > 1 { font.1 as int } else { 1 };
    let inner: int = if status_height >= 2 { status_height - 2 } else { 0 };
    let w: int = inner * fh / fw;
    if w > 4 { w as u16 } else { 4u16 }
}

/// The art column width for a panel of `status_height` rows.
pub fn art_col_width(status_height: u16, font: (u16, u16)) -> (r: u16)
    ensures
        r == spec_art_col_width(status_height, font),
{
    let fw: u32 = if font.0 > 1 { font.0 as u32 } else { 1 };
    let fh: u32 = if font.1 > 1 { font.1 as u32 } else { 1 };
    let inner_h: u32 = if status_height >= 2 { (status_height - 2) as u32 } else { 0 };
    assert(inner_h * fh <= 65535 * 65535) by (nonlinear_arith)
        requires inner_h <= 65535, fh <= 65535;
    let prod = inner_h * fh;
    let w = prod / fw;
    let w2: u32 = if w > 4 { w } else { 4 };
    w2 as u16
}

/// The Now Playing panel height for a terminal of `term_height` rows: a third of the height
/// but at least `base_height`.
pub open spec fn spec_status_height(term_height: u16, base_height: u16) -> u16 {
    if term_height / 3 > base_height { (term_height / 3) as u16 } else { base_height }
}

/// Resizes the Now Playing panel for a terminal of `term_height` rows and the art column to
/// match; nothing else changes.
pub fn update_status_height(app: &mut App, term_height: u16, base_height: u16)
    ensures
        *final(app) == (App {
            status_height: spec_status_height(term_height, base_height),
            art_col_w: spec_art_col_width(spec_status_height(term_height, base_height), old(app).font_size),
            ..*old(app)
        }),
{
    let third = term_height / 3;
    let dyn_sh = if third > base_height { third } else { base_height };
    app.status_height = dyn_sh;
    app.art_col_w = art_col_width(dyn_sh, app.font_size);
}

} // verus!
