//! The picture shown beside each row of the main list.
use vstd::prelude::*;
use crate::api::{
    Album, Artist, FolderItemType, RadioItem, Track, clone_opt_string, music_image_url, opt_string_view,
    spec_music_image_url,
};
use crate::app::{App, LibraryView, MainView, SearchResultItem};
use crate::table::StrMap;
use crate::text::{spec_decimal, u64_to_string};

verus! {

/// The picture of an album: `cover.jpg` under the album's id.
pub open spec fn spec_album_cover_url(base: Seq<char>, a: Album) -> Seq<char> {
    spec_music_image_url(base, a.id@, "cover.jpg"@)
}

/// The picture of an album (see `spec_album_cover_url`).
pub fn album_cover_url(base: &str, a: &Album) -> (r: String)
    ensures
        r@ == spec_album_cover_url(base@, *a),
{
    music_image_url(base, a.id.as_str(), "cover.jpg")
}

/// A looked-up picture: the one remembered for `key`, none when none is remembered (or
/// none was found for it).
pub open spec fn cached_art(m: Map<Seq<char>, Option<String>>, key: Seq<char>) -> Option<Seq<char>> {
    if m.contains_key(key) {
        opt_string_view(m[key])
    } else {
        None
    }
}

fn cached_art_of(m: &StrMap<Option<String>>, key: &str) -> (r: Option<String>)
    ensures
        opt_string_view(r) == cached_art(m@, key@),
{
    match m.get(key) {
        Some(v) => clone_opt_string(v),
        None => None,
    }
}

/// The picture of row `idx` of a list of artists.
pub open spec fn artist_row_art(app: App, artists: Seq<Artist>, idx: int) -> Option<Seq<char>> {
    if 0 <= idx < artists.len() {
        cached_art(app.artist_artwork@, artists[idx].id@)
    } else {
        None
    }
}

fn artist_row_art_of(app: &App, artists: &Vec<Artist>, idx: usize) -> (r: Option<String>)
    ensures
        opt_string_view(r) == artist_row_art(*app, artists@, idx as int),
{
    if idx < artists.len() {
        cached_art_of(&app.artist_artwork, artists[idx].id.as_str())
    } else {
        None
    }
}

/// The picture of row `idx` of a list of albums.
pub open spec fn album_row_art(albums: Seq<Album>, idx: int, base: Seq<char>) -> Option<Seq<char>> {
    if 0 <= idx < albums.len() {
        Some(spec_album_cover_url(base, albums[idx]))
    } else {
        None
    }
}

fn album_row_art_of(albums: &Vec<Album>, idx: usize, base: &str) -> (r: Option<String>)
    ensures
        opt_string_view(r) == album_row_art(albums@, idx as int, base@),
{
    if idx < albums.len() {
        Some(album_cover_url(base, &albums[idx]))
    } else {
        None
    }
}

/// The picture of a track found by id: `cover.jpg` under its id, none without an id.
pub open spec fn track_id_art(t: Track, base: Seq<char>) -> Option<Seq<char>> {
    match t.id {
        Some(id) => Some(spec_music_image_url(base, id@, "cover.jpg"@)),
        None => None,
    }
}

fn track_id_art_of(t: &Track, base: &str) -> (r: Option<String>)
    ensures
        opt_string_view(r) == track_id_art(*t, base@),
{
    match &t.id {
        Some(id) => Some(music_image_url(base, id.as_str(), "cover.jpg")),
        None => None,
    }
}

/// The picture of row `idx` of a list of tracks that carry their own picture.
pub open spec fn track_row_art(tracks: Seq<Track>, idx: int) -> Option<Seq<char>> {
    if 0 <= idx < tracks.len() {
        opt_string_view(tracks[idx].artwork_url)
    } else {
        None
    }
}

fn track_row_art_of(tracks: &Vec<Track>, idx: usize) -> (r: Option<String>)
    ensures
        opt_string_view(r) == track_row_art(tracks@, idx as int),
{
    if idx < tracks.len() {
        clone_opt_string(&tracks[idx].artwork_url)
    } else {
        None
    }
}

/// The picture of row `idx` of a browse list.
pub open spec fn item_row_art(items: Seq<RadioItem>, idx: int) -> Option<Seq<char>> {
    if 0 <= idx < items.len() {
        opt_string_view(items[idx].artwork_url)
    } else {
        None
    }
}

fn item_row_art_of(items: &Vec<RadioItem>, idx: usize) -> (r: Option<String>)
    ensures
        opt_string_view(r) == item_row_art(items@, idx as int),
{
    if idx < items.len() {
        clone_opt_string(&items[idx].artwork_url)
    } else {
        None
    }
}

/// The picture of row `idx` of a folder listing: a track's own cover, or the cover found
/// for a sub-folder (by its id in decimal text).
pub open spec fn folder_row_art(app: App, idx: int, base: Seq<char>) -> Option<Seq<char>> {
    if 0 <= idx < app.folder_items@.len() {
        let item = app.folder_items@[idx];
        if item.item_type == FolderItemType::Track {
            Some(spec_music_image_url(base, spec_decimal(item.id as nat), "cover.jpg"@))
        } else {
            cached_art(app.folder_artwork@, spec_decimal(item.id as nat))
        }
    } else {
        None
    }
}

fn folder_row_art_of(app: &App, idx: usize, base: &str) -> (r: Option<String>)
    ensures
        opt_string_view(r) == folder_row_art(*app, idx as int, base@),
{
    if idx >= app.folder_items.len() {
        return None;
    }
    let id = u64_to_string(app.folder_items[idx].id as u64);
    if app.folder_items[idx].item_type == FolderItemType::Track {
        Some(music_image_url(base, id.as_str(), "cover.jpg"))
    } else {
        cached_art_of(&app.folder_artwork, id.as_str())
    }
}

/// The picture of row `idx` of the search results: an artist's found picture, an album's
/// cover, a track's cover by id, an app entry's own picture; none for the others.
pub open spec fn search_row_art(app: App, idx: int, base: Seq<char>) -> Option<Seq<char>> {
    if 0 <= idx < app.search_results@.len() {
        match app.search_results@[idx] {
            SearchResultItem::Artist(a) => cached_art(app.artist_artwork@, a.id@),
            SearchResultItem::Album(a) => Some(spec_album_cover_url(base, a)),
            SearchResultItem::Track(t) => track_id_art(t, base),
            SearchResultItem::AppItem(i) => opt_string_view(i.artwork_url),
            _ => None,
        }
    } else {
        None
    }
}

fn search_row_art_of(app: &App, idx: usize, base: &str) -> (r: Option<String>)
    ensures
        opt_string_view(r) == search_row_art(*app, idx as int, base@),
{
    if idx >= app.search_results.len() {
        return None;
    }
    match &app.search_results[idx] {
        SearchResultItem::Artist(a) => cached_art_of(&app.artist_artwork, a.id.as_str()),
        SearchResultItem::Album(a) => Some(album_cover_url(base, a)),
        SearchResultItem::Track(t) => track_id_art_of(t, base),
        SearchResultItem::AppItem(i) => clone_opt_string(&i.artwork_url),
        _ => None,
    }
}

/// The picture of row `idx` of the main list for the server at `base`: in full-art mode the
/// queue's; else by view, artists by their found pictures, albums by cover, tracks and
/// playlists by `cover.jpg` under their id, folder rows as `folder_row_art`, the queue and
/// the browse lists by their own pictures, search results as `search_row_art`; none for the
/// other views and for rows past the end.
pub open spec fn spec_thumbnail_url(app: App, idx: int, base: Seq<char>) -> Option<Seq<char>> {
    if app.full_art_mode {
        track_row_art(app.queue@, idx)
    } else {
        match app.main_view {
            MainView::Library(LibraryView::Artists) => artist_row_art(app, app.artists@, idx),
            MainView::Library(LibraryView::AlbumArtists) => artist_row_art(app, app.album_artists@, idx),
            MainView::Library(LibraryView::RecentlyPlayedArtists) => artist_row_art(app, app.recent_artists@, idx),
            MainView::Library(LibraryView::Albums { .. }) => album_row_art(app.albums@, idx, base),
            MainView::Library(LibraryView::PopularAlbums) => album_row_art(app.popular_albums@, idx, base),
            MainView::Library(LibraryView::Tracks { .. }) => if 0 <= idx < app.tracks@.len() {
                track_id_art(app.tracks@[idx], base)
            } else {
                None
            },
            MainView::Library(LibraryView::Playlists) => if 0 <= idx < app.playlists@.len() {
                Some(spec_music_image_url(base, app.playlists@[idx].id@, "cover.jpg"@))
            } else {
                None
            },
            MainView::Library(LibraryView::Folder { .. }) => folder_row_art(app, idx, base),
            MainView::Queue => track_row_art(app.queue@, idx),
            MainView::Radio => item_row_art(app.radio_items@, idx),
            MainView::Apps => item_row_art(app.app_items@, idx),
            MainView::AppSearch { .. } => item_row_art(app.app_search_results@, idx),
            MainView::Favourites => item_row_art(app.fav_items@, idx),
            MainView::Search => search_row_art(app, idx, base),
            _ => None,
        }
    }
}

/// The picture of row `idx` of the main list (see `spec_thumbnail_url`).
pub fn thumbnail_url_for(app: &App, idx: usize, base: &str) -> (r: Option<String>)
    ensures
        opt_string_view(r) == spec_thumbnail_url(*app, idx as int, base@),
{
    if app.full_art_mode {
        return track_row_art_of(&app.queue, idx);
    }
    match &app.main_view {
        MainView::Library(LibraryView::Artists) => artist_row_art_of(app, &app.artists, idx),
        MainView::Library(LibraryView::AlbumArtists) => artist_row_art_of(app, &app.album_artists, idx),
        MainView::Library(LibraryView::RecentlyPlayedArtists) => artist_row_art_of(app, &app.recent_artists, idx),
        MainView::Library(LibraryView::Albums { .. }) => album_row_art_of(&app.albums, idx, base),
        MainView::Library(LibraryView::PopularAlbums) => album_row_art_of(&app.popular_albums, idx, base),
        MainView::Library(LibraryView::Tracks { .. }) => if idx < app.tracks.len() {
            track_id_art_of(&app.tracks[idx], base)
        } else {
            None
        },
        MainView::Library(LibraryView::Playlists) => if idx < app.playlists.len() {
            Some(music_image_url(base, app.playlists[idx].id.as_str(), "cover.jpg"))
        } else {
            None
        },
        MainView::Library(LibraryView::Folder { .. }) => folder_row_art_of(app, idx, base),
        MainView::Queue => track_row_art_of(&app.queue, idx),
        MainView::Radio => item_row_art_of(&app.radio_items, idx),
        MainView::Apps => item_row_art_of(&app.app_items, idx),
        MainView::AppSearch { .. } => item_row_art_of(&app.app_search_results, idx),
        MainView::Favourites => item_row_art_of(&app.fav_items, idx),
        MainView::Search => search_row_art_of(app, idx, base),
        _ => None,
    }
}

} // verus!
