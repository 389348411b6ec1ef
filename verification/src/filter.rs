//! Narrowing a list by a typed query: case-insensitive substring matching.
use vstd::prelude::*;
use crate::api::{Album, Artist, FolderItem, Playlist, RadioItem, Track, opt_str_view, opt_string_view};
use crate::app::{App, FilterBackup, LibraryView, LocalFilter, MainView};
use crate::editing::{edit_key_ok, handle_text_edit_key, text_edit};
use crate::events::KeyCode;
use crate::utils::{has_overlay, main_list_len, spec_has_overlay, spec_main_list_len};
use crate::text::{contains, seq_contains, str_eq};

verus! {

/// What `str::to_lowercase` makes of `s` (the Unicode lower-case mapping).
pub uninterp spec fn spec_lowercase(s: Seq<char>) -> Seq<char>;

/// `s` in lower case (std `str::to_lowercase`); the result is named by `spec_lowercase`.
#[verifier::external_body]
pub(crate) fn to_lowercase(s: &str) -> (r: String)
    ensures
        r@ == spec_lowercase(s@),
{
    s.to_lowercase()
}

/// The lower-case query `query_lc` matches `haystack`: it is empty, or the lower-cased
/// haystack contains it.
pub open spec fn spec_text_matches(query_lc: Seq<char>, haystack: Seq<char>) -> bool {
    query_lc.len() == 0 || seq_contains(spec_lowercase(haystack), query_lc)
}

/// Whether the lower-case query matches `haystack`.
pub fn text_matches(query_lc: &str, haystack: &str) -> (r: bool)
    ensures
        r == spec_text_matches(query_lc@, haystack@),
{
    if query_lc.unicode_len() == 0 {
        return true;
    }
    let lower = to_lowercase(haystack);
    contains(lower.as_str(), query_lc)
}

/// Views whose list can be narrowed: the library lists, the queue and the browse trees (not
/// My Music, Players, Help or the search views).
pub open spec fn spec_is_filterable(view: MainView) -> bool {
    match view {
        MainView::Library(_) => true,
        MainView::Queue | MainView::Radio | MainView::Apps | MainView::Favourites => true,
        _ => false,
    }
}

/// Whether the list of `view` can be narrowed.
pub fn is_filterable(view: &MainView) -> (r: bool)
    ensures
        r == spec_is_filterable(*view),
{
    match view {
        MainView::Library(_) => true,
        MainView::Queue | MainView::Radio | MainView::Apps | MainView::Favourites => true,
        _ => false,
    }
}

/// An artist matches by name.
pub open spec fn artist_matches(q: Seq<char>) -> spec_fn(Artist) -> bool {
    |a: Artist| spec_text_matches(q, a.artist@)
}

/// An album matches by title or artist.
pub open spec fn album_matches(q: Seq<char>) -> spec_fn(Album) -> bool {
    |a: Album| spec_text_matches(q, a.album@) || (a.artist matches Some(s) && spec_text_matches(q, s@))
}

/// A track matches by title or artist.
pub open spec fn track_matches(q: Seq<char>) -> spec_fn(Track) -> bool {
    |t: Track| spec_text_matches(q, t.title@) || (t.artist matches Some(s) && spec_text_matches(q, s@))
}

/// A playlist matches by name.
pub open spec fn playlist_matches(q: Seq<char>) -> spec_fn(Playlist) -> bool {
    |p: Playlist| spec_text_matches(q, p.name@)
}

/// A folder entry matches by file name.
pub open spec fn folder_matches(q: Seq<char>) -> spec_fn(FolderItem) -> bool {
    |i: FolderItem| spec_text_matches(q, i.filename@)
}

/// A browse entry matches by name.
pub open spec fn item_matches(q: Seq<char>) -> spec_fn(RadioItem) -> bool {
    |i: RadioItem| spec_text_matches(q, i.name@)
}

/// The artists of `full` that match `q`, in order.
pub fn retain_artists(full: &Vec<Artist>, q: &str) -> (r: Vec<Artist>)
    ensures
        r@ == full@.filter(artist_matches(q@)),
{
    let mut out: Vec<Artist> = Vec::new();
    let mut i: usize = 0;
    while i < full.len()
        invariant
            i <= full@.len(),
            out@ == full@.take(i as int).filter(artist_matches(q@)),
        decreases full@.len() - i,
    {
        proof {
            reveal(Seq::filter);
            assert(full@.take(i + 1).drop_last() =~= full@.take(i as int));
        }
        if text_matches(q, full[i].artist.as_str()) {
            out.push(full[i].clone());
        }
        i += 1;
    }
    assert(full@.take(full@.len() as int) =~= full@);
    out
}

fn opt_matches(q: &str, s: &Option<String>) -> (r: bool)
    ensures
        r == (*s matches Some(x) && spec_text_matches(q@, x@)),
{
    match s {
        Some(x) => text_matches(q, x.as_str()),
        None => false,
    }
}

/// The albums of `full` that match `q`, in order.
pub fn retain_albums(full: &Vec<Album>, q: &str) -> (r: Vec<Album>)
    ensures
        r@ == full@.filter(album_matches(q@)),
{
    let mut out: Vec<Album> = Vec::new();
    let mut i: usize = 0;
    while i < full.len()
        invariant
            i <= full@.len(),
            out@ == full@.take(i as int).filter(album_matches(q@)),
        decreases full@.len() - i,
    {
        proof {
            reveal(Seq::filter);
            assert(full@.take(i + 1).drop_last() =~= full@.take(i as int));
        }
        if text_matches(q, full[i].album.as_str()) || opt_matches(q, &full[i].artist) {
            out.push(full[i].clone());
        }
        i += 1;
    }
    assert(full@.take(full@.len() as int) =~= full@);
    out
}

/// The tracks of `full` that match `q`, in order.
pub fn retain_tracks(full: &Vec<Track>, q: &str) -> (r: Vec<Track>)
    ensures
        r@ == full@.filter(track_matches(q@)),
{
    let mut out: Vec<Track> = Vec::new();
    let mut i: usize = 0;
    while i < full.len()
        invariant
            i <= full@.len(),
            out@ == full@.take(i as int).filter(track_matches(q@)),
        decreases full@.len() - i,
    {
        proof {
            reveal(Seq::filter);
            assert(full@.take(i + 1).drop_last() =~= full@.take(i as int));
        }
        if text_matches(q, full[i].title.as_str()) || opt_matches(q, &full[i].artist) {
            out.push(full[i].clone());
        }
        i += 1;
    }
    assert(full@.take(full@.len() as int) =~= full@);
    out
}

/// The playlists of `full` that match `q`, in order.
pub fn retain_playlists(full: &Vec<Playlist>, q: &str) -> (r: Vec<Playlist>)
    ensures
        r@ == full@.filter(playlist_matches(q@)),
{
    let mut out: Vec<Playlist> = Vec::new();
    let mut i: usize = 0;
    while i < full.len()
        invariant
            i <= full@.len(),
            out@ == full@.take(i as int).filter(playlist_matches(q@)),
        decreases full@.len() - i,
    {
        proof {
            reveal(Seq::filter);
            assert(full@.take(i + 1).drop_last() =~= full@.take(i as int));
        }
        if text_matches(q, full[i].name.as_str()) {
            out.push(full[i].clone());
        }
        i += 1;
    }
    assert(full@.take(full@.len() as int) =~= full@);
    out
}

/// The folder entries of `full` that match `q`, in order.
pub fn retain_folders(full: &Vec<FolderItem>, q: &str) -> (r: Vec<FolderItem>)
    ensures
        r@ == full@.filter(folder_matches(q@)),
{
    let mut out: Vec<FolderItem> = Vec::new();
    let mut i: usize = 0;
    while i < full.len()
        invariant
            i <= full@.len(),
            out@ == full@.take(i as int).filter(folder_matches(q@)),
        decreases full@.len() - i,
    {
        proof {
            reveal(Seq::filter);
            assert(full@.take(i + 1).drop_last() =~= full@.take(i as int));
        }
        if text_matches(q, full[i].filename.as_str()) {
            out.push(full[i].clone());
        }
        i += 1;
    }
    assert(full@.take(full@.len() as int) =~= full@);
    out
}

/// The browse entries of `full` that match `q`, in order.
pub fn retain_items(full: &Vec<RadioItem>, q: &str) -> (r: Vec<RadioItem>)
    ensures
        r@ == full@.filter(item_matches(q@)),
{
    let mut out: Vec<RadioItem> = Vec::new();
    let mut i: usize = 0;
    while i < full.len()
        invariant
            i <= full@.len(),
            out@ == full@.take(i as int).filter(item_matches(q@)),
        decreases full@.len() - i,
    {
        proof {
            reveal(Seq::filter);
            assert(full@.take(i + 1).drop_last() =~= full@.take(i as int));
        }
        if text_matches(q, full[i].name.as_str()) {
            out.push(full[i].clone());
        }
        i += 1;
    }
    assert(full@.take(full@.len() as int) =~= full@);
    out
}

/// Keeping every item keeps the list as it was.
proof fn lemma_filter_keeps_all<A>(s: Seq<A>, p: spec_fn(A) -> bool)
    requires
        forall|x: A| #[trigger] p(x),
    ensures
        s.filter(p) == s,
    decreases s.len(),
{
    reveal(Seq::filter);
    if s.len() > 0 {
        lemma_filter_keeps_all(s.drop_last(), p);
        assert(s.drop_last().push(s.last()) =~= s);
    }
}

fn copy_artists(v: &Vec<Artist>) -> (r: Vec<Artist>)
    ensures
        r@ == v@,
{
    let e = String::new();
    proof {
        assert forall|a: Artist| #[trigger] artist_matches(e@)(a) by {}
        lemma_filter_keeps_all(v@, artist_matches(e@));
    }
    retain_artists(v, e.as_str())
}

fn copy_albums(v: &Vec<Album>) -> (r: Vec<Album>)
    ensures
        r@ == v@,
{
    let e = String::new();
    proof {
        assert forall|a: Album| #[trigger] album_matches(e@)(a) by {}
        lemma_filter_keeps_all(v@, album_matches(e@));
    }
    retain_albums(v, e.as_str())
}

fn copy_tracks(v: &Vec<Track>) -> (r: Vec<Track>)
    ensures
        r@ == v@,
{
    let e = String::new();
    proof {
        assert forall|a: Track| #[trigger] track_matches(e@)(a) by {}
        lemma_filter_keeps_all(v@, track_matches(e@));
    }
    retain_tracks(v, e.as_str())
}

fn copy_playlists(v: &Vec<Playlist>) -> (r: Vec<Playlist>)
    ensures
        r@ == v@,
{
    let e = String::new();
    proof {
        assert forall|a: Playlist| #[trigger] playlist_matches(e@)(a) by {}
        lemma_filter_keeps_all(v@, playlist_matches(e@));
    }
    retain_playlists(v, e.as_str())
}

fn copy_folders(v: &Vec<FolderItem>) -> (r: Vec<FolderItem>)
    ensures
        r@ == v@,
{
    let e = String::new();
    proof {
        assert forall|a: FolderItem| #[trigger] folder_matches(e@)(a) by {}
        lemma_filter_keeps_all(v@, folder_matches(e@));
    }
    retain_folders(v, e.as_str())
}

fn copy_items(v: &Vec<RadioItem>) -> (r: Vec<RadioItem>)
    ensures
        r@ == v@,
{
    let e = String::new();
    proof {
        assert forall|a: RadioItem| #[trigger] item_matches(e@)(a) by {}
        lemma_filter_keeps_all(v@, item_matches(e@));
    }
    retain_items(v, e.as_str())
}

/// Two views are the same view (texts compared by their characters).
pub open spec fn views_match(a: MainView, b: MainView) -> bool {
    match (a, b) {
        (MainView::Library(x), MainView::Library(y)) => match (x, y) {
            (LibraryView::Artists, LibraryView::Artists) => true,
            (LibraryView::AlbumArtists, LibraryView::AlbumArtists) => true,
            (LibraryView::Albums { artist_id: p }, LibraryView::Albums { artist_id: q }) => opt_string_view(p) == opt_string_view(q),
            (LibraryView::Tracks { album_id: p }, LibraryView::Tracks { album_id: q }) => opt_string_view(p) == opt_string_view(q),
            (LibraryView::Folder { folder_id: p }, LibraryView::Folder { folder_id: q }) => p == q,
            (LibraryView::Playlists, LibraryView::Playlists) => true,
            (LibraryView::RecentlyPlayedArtists, LibraryView::RecentlyPlayedArtists) => true,
            (LibraryView::PopularAlbums, LibraryView::PopularAlbums) => true,
            _ => false,
        },
        (MainView::MyMusic, MainView::MyMusic) => true,
        (MainView::Queue, MainView::Queue) => true,
        (MainView::Players, MainView::Players) => true,
        (MainView::Radio, MainView::Radio) => true,
        (MainView::Apps, MainView::Apps) => true,
        (MainView::Favourites, MainView::Favourites) => true,
        (MainView::Help, MainView::Help) => true,
        (MainView::Search, MainView::Search) => true,
        (MainView::AppSearch { cmd: c1, item_id: i1 }, MainView::AppSearch { cmd: c2, item_id: i2 }) =>
            c1@ == c2@ && opt_string_view(i1) == opt_string_view(i2),
        _ => false,
    }
}

fn same_opt_text(a: &Option<String>, b: &Option<String>) -> (r: bool)
    ensures
        r == (opt_string_view(*a) == opt_string_view(*b)),
{
    match (a, b) {
        (Some(x), Some(y)) => str_eq(x.as_str(), y.as_str()),
        (None, None) => true,
        _ => false,
    }
}

fn same_library_view(x: &LibraryView, y: &LibraryView) -> (r: bool)
    ensures
        r == views_match(MainView::Library(*x), MainView::Library(*y)),
{
    match (x, y) {
        (LibraryView::Artists, LibraryView::Artists) => true,
        (LibraryView::AlbumArtists, LibraryView::AlbumArtists) => true,
        (LibraryView::Albums { artist_id: p }, LibraryView::Albums { artist_id: q }) => same_opt_text(p, q),
        (LibraryView::Tracks { album_id: p }, LibraryView::Tracks { album_id: q }) => same_opt_text(p, q),
        (LibraryView::Folder { folder_id: p }, LibraryView::Folder { folder_id: q }) => *p == *q,
        (LibraryView::Playlists, LibraryView::Playlists) => true,
        (LibraryView::RecentlyPlayedArtists, LibraryView::RecentlyPlayedArtists) => true,
        (LibraryView::PopularAlbums, LibraryView::PopularAlbums) => true,
        _ => false,
    }
}

/// Whether two views are the same view (see `views_match`).
pub fn same_view(a: &MainView, b: &MainView) -> (r: bool)
    ensures
        r == views_match(*a, *b),
{
    match (a, b) {
        (MainView::Library(x), MainView::Library(y)) => same_library_view(x, y),
        (MainView::MyMusic, MainView::MyMusic) => true,
        (MainView::Queue, MainView::Queue) => true,
        (MainView::Players, MainView::Players) => true,
        (MainView::Radio, MainView::Radio) => true,
        (MainView::Apps, MainView::Apps) => true,
        (MainView::Favourites, MainView::Favourites) => true,
        (MainView::Help, MainView::Help) => true,
        (MainView::Search, MainView::Search) => true,
        (MainView::AppSearch { cmd: c1, item_id: i1 }, MainView::AppSearch { cmd: c2, item_id: i2 }) =>
            str_eq(c1.as_str(), c2.as_str()) && same_opt_text(i1, i2),
        _ => false,
    }
}

/// `b` holds the list that backs `view` in `app` (the filterable views only).
pub open spec fn backs(app: App, view: MainView, b: FilterBackup) -> bool {
    match view {
        MainView::Library(LibraryView::Artists) => b matches FilterBackup::Artists(v) && v@ == app.artists@,
        MainView::Library(LibraryView::AlbumArtists) => b matches FilterBackup::Artists(v) && v@ == app.album_artists@,
        MainView::Library(LibraryView::RecentlyPlayedArtists) => b matches FilterBackup::Artists(v) && v@ == app.recent_artists@,
        MainView::Library(LibraryView::Albums { .. }) => b matches FilterBackup::Albums(v) && v@ == app.albums@,
        MainView::Library(LibraryView::PopularAlbums) => b matches FilterBackup::Albums(v) && v@ == app.popular_albums@,
        MainView::Library(LibraryView::Tracks { .. }) => b matches FilterBackup::Tracks(v) && v@ == app.tracks@,
        MainView::Library(LibraryView::Folder { .. }) => b matches FilterBackup::Folder(v) && v@ == app.folder_items@,
        MainView::Library(LibraryView::Playlists) => b matches FilterBackup::Playlists(v) && v@ == app.playlists@,
        MainView::Queue => b matches FilterBackup::Tracks(v) && v@ == app.queue@,
        MainView::Radio => b matches FilterBackup::Items(v) && v@ == app.radio_items@,
        MainView::Apps => b matches FilterBackup::Items(v) && v@ == app.app_items@,
        MainView::Favourites => b matches FilterBackup::Items(v) && v@ == app.fav_items@,
        _ => false,
    }
}

/// A copy of the list that backs `view`; none for the views that cannot be filtered.
fn snapshot(app: &App, view: &MainView) -> (r: Option<FilterBackup>)
    ensures
        match r {
            Some(b) => spec_is_filterable(*view) && backs(*app, *view, b),
            None => !spec_is_filterable(*view),
        },
{
    match view {
        MainView::Library(LibraryView::Artists) => Some(FilterBackup::Artists(copy_artists(&app.artists))),
        MainView::Library(LibraryView::AlbumArtists) => Some(FilterBackup::Artists(copy_artists(&app.album_artists))),
        MainView::Library(LibraryView::RecentlyPlayedArtists) => Some(FilterBackup::Artists(copy_artists(&app.recent_artists))),
        MainView::Library(LibraryView::Albums { .. }) => Some(FilterBackup::Albums(copy_albums(&app.albums))),
        MainView::Library(LibraryView::PopularAlbums) => Some(FilterBackup::Albums(copy_albums(&app.popular_albums))),
        MainView::Library(LibraryView::Tracks { .. }) => Some(FilterBackup::Tracks(copy_tracks(&app.tracks))),
        MainView::Library(LibraryView::Folder { .. }) => Some(FilterBackup::Folder(copy_folders(&app.folder_items))),
        MainView::Library(LibraryView::Playlists) => Some(FilterBackup::Playlists(copy_playlists(&app.playlists))),
        MainView::Queue => Some(FilterBackup::Tracks(copy_tracks(&app.queue))),
        MainView::Radio => Some(FilterBackup::Items(copy_items(&app.radio_items))),
        MainView::Apps => Some(FilterBackup::Items(copy_items(&app.app_items))),
        MainView::Favourites => Some(FilterBackup::Items(copy_items(&app.fav_items))),
        _ => None,
    }
}

/// The items of `v` that `p` keeps when there is a query; all of them when there is none.
pub open spec fn narrowed<A>(v: Seq<A>, q: Option<Seq<char>>, p: spec_fn(A) -> bool) -> Seq<A> {
    if q is Some { v.filter(p) } else { v }
}

/// The query, or the empty text without one.
pub open spec fn query_or_empty(q: Option<Seq<char>>) -> Seq<char> {
    match q {
        Some(x) => x,
        None => Seq::empty(),
    }
}

/// Which list a backup of kind `b` sets for the view `owner`: 0 to 11 for the artists,
/// album artists, recent artists, albums, popular albums, tracks, folder items, playlists,
/// queue, radio, app and favourite entries; -1 when the kind is not the view's.
pub open spec fn target(owner: MainView, b: FilterBackup) -> int {
    match (owner, b) {
        (MainView::Library(LibraryView::Artists), FilterBackup::Artists(_)) => 0,
        (MainView::Library(LibraryView::AlbumArtists), FilterBackup::Artists(_)) => 1,
        (MainView::Library(LibraryView::RecentlyPlayedArtists), FilterBackup::Artists(_)) => 2,
        (MainView::Library(LibraryView::Albums { .. }), FilterBackup::Albums(_)) => 3,
        (MainView::Library(LibraryView::PopularAlbums), FilterBackup::Albums(_)) => 4,
        (MainView::Library(LibraryView::Tracks { .. }), FilterBackup::Tracks(_)) => 5,
        (MainView::Library(LibraryView::Folder { .. }), FilterBackup::Folder(_)) => 6,
        (MainView::Library(LibraryView::Playlists), FilterBackup::Playlists(_)) => 7,
        (MainView::Queue, FilterBackup::Tracks(_)) => 8,
        (MainView::Radio, FilterBackup::Items(_)) => 9,
        (MainView::Apps, FilterBackup::Items(_)) => 10,
        (MainView::Favourites, FilterBackup::Items(_)) => 11,
        _ => -1,
    }
}

/// `new` differs from `old` in the lists of the filterable views only.
pub open spec fn same_but_lists(old: App, new: App) -> bool {
    new == (App {
        artists: new.artists,
        album_artists: new.album_artists,
        recent_artists: new.recent_artists,
        albums: new.albums,
        popular_albums: new.popular_albums,
        tracks: new.tracks,
        folder_items: new.folder_items,
        playlists: new.playlists,
        queue: new.queue,
        radio_items: new.radio_items,
        app_items: new.app_items,
        fav_items: new.fav_items,
        ..old
    })
}

/// The lists of `new`: the one that `b` sets for `owner` (see `target`) holds the list of
/// `b`, narrowed to the items matching the lower-case query `q` when there is one (the whole
/// list otherwise); every other list is as in `old`.
pub open spec fn lists_shown(old: App, new: App, owner: MainView, b: FilterBackup, q: Option<Seq<char>>) -> bool {
    let t = target(owner, b);
    let w = query_or_empty(q);
    &&& if t == 0 { new.artists@ == narrowed(b->Artists_0@, q, artist_matches(w)) } else { new.artists == old.artists }
    &&& if t == 1 { new.album_artists@ == narrowed(b->Artists_0@, q, artist_matches(w)) } else { new.album_artists == old.album_artists }
    &&& if t == 2 { new.recent_artists@ == narrowed(b->Artists_0@, q, artist_matches(w)) } else { new.recent_artists == old.recent_artists }
    &&& if t == 3 { new.albums@ == narrowed(b->Albums_0@, q, album_matches(w)) } else { new.albums == old.albums }
    &&& if t == 4 { new.popular_albums@ == narrowed(b->Albums_0@, q, album_matches(w)) } else { new.popular_albums == old.popular_albums }
    &&& if t == 5 { new.tracks@ == narrowed(b->Tracks_0@, q, track_matches(w)) } else { new.tracks == old.tracks }
    &&& if t == 6 { new.folder_items@ == narrowed(b->Folder_0@, q, folder_matches(w)) } else { new.folder_items == old.folder_items }
    &&& if t == 7 { new.playlists@ == narrowed(b->Playlists_0@, q, playlist_matches(w)) } else { new.playlists == old.playlists }
    &&& if t == 8 { new.queue@ == narrowed(b->Tracks_0@, q, track_matches(w)) } else { new.queue == old.queue }
    &&& if t == 9 { new.radio_items@ == narrowed(b->Items_0@, q, item_matches(w)) } else { new.radio_items == old.radio_items }
    &&& if t == 10 { new.app_items@ == narrowed(b->Items_0@, q, item_matches(w)) } else { new.app_items == old.app_items }
    &&& if t == 11 { new.fav_items@ == narrowed(b->Items_0@, q, item_matches(w)) } else { new.fav_items == old.fav_items }
}

/// `new` is `old` with the list backing `owner` set from the backup `b` (see `lists_shown`);
/// a backup of another kind than the view's changes nothing.
#[verifier::opaque]
pub open spec fn shows(old: App, new: App, owner: MainView, b: FilterBackup, q: Option<Seq<char>>) -> bool {
    same_but_lists(old, new) && lists_shown(old, new, owner, b, q)
}

fn show_artists(v: &Vec<Artist>, q: Option<&str>) -> (r: Vec<Artist>)
    ensures
        r@ == narrowed(v@, opt_str_view(q), artist_matches(query_or_empty(opt_str_view(q)))),
{
    match q {
        Some(q) => retain_artists(v, q),
        None => copy_artists(v),
    }
}

fn show_albums(v: &Vec<Album>, q: Option<&str>) -> (r: Vec<Album>)
    ensures
        r@ == narrowed(v@, opt_str_view(q), album_matches(query_or_empty(opt_str_view(q)))),
{
    match q {
        Some(q) => retain_albums(v, q),
        None => copy_albums(v),
    }
}

fn show_tracks(v: &Vec<Track>, q: Option<&str>) -> (r: Vec<Track>)
    ensures
        r@ == narrowed(v@, opt_str_view(q), track_matches(query_or_empty(opt_str_view(q)))),
{
    match q {
        Some(q) => retain_tracks(v, q),
        None => copy_tracks(v),
    }
}

fn show_playlists(v: &Vec<Playlist>, q: Option<&str>) -> (r: Vec<Playlist>)
    ensures
        r@ == narrowed(v@, opt_str_view(q), playlist_matches(query_or_empty(opt_str_view(q)))),
{
    match q {
        Some(q) => retain_playlists(v, q),
        None => copy_playlists(v),
    }
}

fn show_folders(v: &Vec<FolderItem>, q: Option<&str>) -> (r: Vec<FolderItem>)
    ensures
        r@ == narrowed(v@, opt_str_view(q), folder_matches(query_or_empty(opt_str_view(q)))),
{
    match q {
        Some(q) => retain_folders(v, q),
        None => copy_folders(v),
    }
}

fn show_items(v: &Vec<RadioItem>, q: Option<&str>) -> (r: Vec<RadioItem>)
    ensures
        r@ == narrowed(v@, opt_str_view(q), item_matches(query_or_empty(opt_str_view(q)))),
{
    match q {
        Some(q) => retain_items(v, q),
        None => copy_items(v),
    }
}

/// Sets the list backing `owner` from the backup (see `shows`).
#[verifier::rlimit(100)]
#[verifier::spinoff_prover]
fn show_list(app: &mut App, owner: &MainView, b: &FilterBackup, q: Option<&str>)
    ensures
        shows(*old(app), *final(app), *owner, *b, opt_str_view(q)),
{
    proof {
        reveal(shows);
    }
    match (owner, b) {
        (MainView::Library(LibraryView::Artists), FilterBackup::Artists(v)) => app.artists = show_artists(v, q),
        (MainView::Library(LibraryView::AlbumArtists), FilterBackup::Artists(v)) => app.album_artists = show_artists(v, q),
        (MainView::Library(LibraryView::RecentlyPlayedArtists), FilterBackup::Artists(v)) => app.recent_artists = show_artists(v, q),
        (MainView::Library(LibraryView::Albums { .. }), FilterBackup::Albums(v)) => app.albums = show_albums(v, q),
        (MainView::Library(LibraryView::PopularAlbums), FilterBackup::Albums(v)) => app.popular_albums = show_albums(v, q),
        (MainView::Library(LibraryView::Tracks { .. }), FilterBackup::Tracks(v)) => app.tracks = show_tracks(v, q),
        (MainView::Library(LibraryView::Folder { .. }), FilterBackup::Folder(v)) => app.folder_items = show_folders(v, q),
        (MainView::Library(LibraryView::Playlists), FilterBackup::Playlists(v)) => app.playlists = show_playlists(v, q),
        (MainView::Queue, FilterBackup::Tracks(v)) => app.queue = show_tracks(v, q),
        (MainView::Radio, FilterBackup::Items(v)) => app.radio_items = show_items(v, q),
        (MainView::Apps, FilterBackup::Items(v)) => app.app_items = show_items(v, q),
        (MainView::Favourites, FilterBackup::Items(v)) => app.fav_items = show_items(v, q),
        _ => {},
    }
}

/// Opening the filter: with none open and a filterable view, a filter on that view starts,
/// with an empty query being edited and a copy of the view's full list; otherwise nothing
/// changes.
pub open spec fn open_filter_post(old: App, new: App) -> bool {
    if old.local_filter is Some || !spec_is_filterable(old.main_view) {
        new == old
    } else {
        &&& new == (App { local_filter: new.local_filter, ..old })
        &&& new.local_filter matches Some(f) && f.owner == old.main_view && f.query@.len() == 0 && f.cursor == 0
            && f.editing && backs(old, old.main_view, f.backup)
    }
}

/// Opens the filter on the current view (see `open_filter_post`).
pub fn open(app: &mut App)
    ensures
        open_filter_post(*old(app), *final(app)),
{
    if app.local_filter.is_some() {
        return;
    }
    let owner = app.main_view.clone();
    let backup = match snapshot(app, &owner) {
        Some(b) => b,
        None => {
            return;
        },
    };
    app.local_filter = Some(LocalFilter { owner, query: String::new(), cursor: 0, editing: true, backup });
}

/// The cursor kept within a list of `len` rows: on the last row when it was past it.
pub open spec fn clamp_selection(sel: usize, len: nat) -> usize {
    if sel >= len { if len > 0 { (len - 1) as usize } else { 0 } } else { sel }
}

/// Narrowing again: the list backing the filter's view holds the items of the full list that
/// match the lower-cased query, in order, and the cursor is kept within it; without a filter
/// nothing changes.
#[verifier::opaque]
pub open spec fn recompute_post(old: App, new: App) -> bool {
    match old.local_filter {
        None => new == old,
        Some(f) => {
            let mid = App { main_selected: old.main_selected, ..new };
            &&& shows(old, mid, f.owner, f.backup, Some(spec_lowercase(f.query@)))
            &&& new.main_selected == clamp_selection(old.main_selected, spec_main_list_len(mid))
        },
    }
}

/// Setting a list keeps to the list fields, whatever filter the states hold.
proof fn lemma_shows_refiltered(a: App, b: App, owner: MainView, bk: FilterBackup, q: Option<Seq<char>>, lf: Option<LocalFilter>)
    requires
        shows(a, b, owner, bk, q),
    ensures
        shows(App { local_filter: lf, ..a }, App { local_filter: lf, ..b }, owner, bk, q),
{
    reveal(shows);
}

fn clamp_cursor(app: &mut App)
    ensures
        *final(app) == (App { main_selected: clamp_selection(old(app).main_selected, spec_main_list_len(*old(app))), ..*old(app) }),
{
    let len = main_list_len(app);
    if app.main_selected >= len {
        app.main_selected = if len > 0 { len - 1 } else { 0 };
    }
}

#[verifier::rlimit(60)]
fn refilter_lists(app: &mut App)
    requires
        old(app).local_filter is Some,
    ensures
        old(app).local_filter matches Some(f)
            && shows(*old(app), *final(app), f.owner, f.backup, Some(spec_lowercase(f.query@))),
        final(app).local_filter == old(app).local_filter,
        final(app).main_selected == old(app).main_selected,
{
    let ghost a0 = *app;
    let f = app.local_filter.take().unwrap();
    let q = to_lowercase(f.query.as_str());
    let ghost a1 = *app;
    show_list(app, &f.owner, &f.backup, Some(q.as_str()));
    let ghost a2 = *app;
    app.local_filter = Some(f);
    proof {
        reveal(shows);
        lemma_shows_refiltered(a1, a2, f.owner, f.backup, Some(q@), Some(f));
        assert(App { local_filter: Some(f), ..a1 } == a0);
        assert(*app == App { local_filter: Some(f), ..a2 });
    }
}

/// Narrows the filtered list again from the full list (see `recompute_post`).
pub fn recompute(app: &mut App)
    ensures
        recompute_post(*old(app), *final(app)),
        final(app).local_filter == old(app).local_filter,
{
    proof {
        reveal(recompute_post);
    }
    if app.local_filter.is_none() {
        return;
    }
    let ghost a0 = *app;
    refilter_lists(app);
    let ghost a1 = *app;
    clamp_cursor(app);
    assert(App { main_selected: a0.main_selected, ..*app } == a1);
}

/// Closing the filter: the full list goes back to the filter's view (whichever view is
/// shown) and the filter is dropped; without a filter nothing changes.
pub open spec fn clear_filter_post(old: App, new: App) -> bool {
    match old.local_filter {
        None => new == old,
        Some(f) => shows(App { local_filter: None, ..old }, new, f.owner, f.backup, None),
    }
}

/// Closes the filter (see `clear_filter_post`).
pub fn clear(app: &mut App)
    ensures
        clear_filter_post(*old(app), *final(app)),
{
    let f = match app.local_filter.take() {
        Some(f) => f,
        None => {
            return;
        },
    };
    show_list(app, &f.owner, &f.backup, None);
}

/// A list was loaded anew for `view`: when the filter is on that view, its full list becomes
/// the loaded one and it narrows again (see `recompute_post`); otherwise nothing changes.
pub open spec fn reapply_post(old: App, new: App, view: MainView) -> bool {
    match old.local_filter {
        Some(f) => if views_match(f.owner, view) && spec_is_filterable(view) {
            new.local_filter matches Some(f2) && f2 == (LocalFilter { backup: f2.backup, ..f })
                && backs(old, view, f2.backup)
                && recompute_post(App { local_filter: Some(f2), ..old }, new)
        } else {
            new == old
        },
        None => new == old,
    }
}

/// Takes a reloaded list into the open filter (see `reapply_post`).
pub fn reapply_if_active(app: &mut App, view: &MainView)
    ensures
        reapply_post(*old(app), *final(app), *view),
{
    let owns = match &app.local_filter {
        Some(f) => same_view(&f.owner, view),
        None => false,
    };
    if !owns {
        return;
    }
    let b = match snapshot(app, view) {
        Some(b) => b,
        None => {
            return;
        },
    };
    let ghost a0 = *app;
    let mut f = match app.local_filter.take() {
        Some(f) => f,
        None => {
            return;
        },
    };
    let ghost f0 = f;
    f.backup = b;
    app.local_filter = Some(f);
    assert(*app == App { local_filter: Some(f), ..a0 });
    assert(f == LocalFilter { backup: f.backup, ..f0 });
    recompute(app);
}

/// The filter is dropped (see `clear_filter_post`) when another view than its own is shown.
pub open spec fn clear_if_view_changed_post(old: App, new: App) -> bool {
    match old.local_filter {
        Some(f) => if !views_match(f.owner, old.main_view) { clear_filter_post(old, new) } else { new == old },
        None => new == old,
    }
}

/// Drops the filter after the view changed (see `clear_if_view_changed_post`).
pub fn clear_if_view_changed(app: &mut App)
    ensures
        clear_if_view_changed_post(*old(app), *final(app)),
{
    let changed = match &app.local_filter {
        Some(f) => !same_view(&f.owner, &app.main_view),
        None => false,
    };
    if changed {
        clear(app);
    }
}

/// The filter can take the key: an edit stays within the query.
pub open spec fn filter_key_ok(app: App, code: KeyCode) -> bool {
    app.local_filter matches Some(f) ==> edit_key_ok(code, f.query@, f.cursor as nat)
}

/// A key while the filter's query is edited: Enter and Down keep the filter and go to the
/// top of the list; Esc, and Backspace on an empty query, close it (see
/// `clear_filter_post`); an editing key edits the query (see `text_edit`) and narrows again
/// (see `recompute_post`); other keys change nothing.
pub open spec fn filter_key_post(old: App, new: App, code: KeyCode) -> bool {
    match old.local_filter {
        None => new == old,
        Some(f) => if code == KeyCode::Enter || code == KeyCode::Down {
            new == (App { local_filter: Some(LocalFilter { editing: false, ..f }), main_selected: 0, ..old })
        } else if code == KeyCode::Esc || (code == KeyCode::Backspace && f.query@.len() == 0) {
            clear_filter_post(old, new)
        } else {
            match text_edit(code, f.query@, f.cursor as nat) {
                None => new == old,
                Some((s, c)) => new.local_filter matches Some(f2) && f2 == (LocalFilter { query: f2.query, cursor: f2.cursor, ..f })
                    && f2.query@ == s && f2.cursor == c
                    && recompute_post(App { local_filter: Some(f2), ..old }, new),
            }
        },
    }
}

fn commit_filter(app: &mut App)
    requires
        old(app).local_filter is Some,
    ensures
        old(app).local_filter matches Some(f) && *final(app) == (App {
            local_filter: Some(LocalFilter { editing: false, ..f }),
            main_selected: 0,
            ..*old(app)
        }),
{
    if let Some(f) = &mut app.local_filter {
        f.editing = false;
    }
    app.main_selected = 0;
}

#[verifier::rlimit(40)]
fn edit_filter(app: &mut App, code: KeyCode)
    requires
        old(app).local_filter matches Some(f) && edit_key_ok(code, f.query@, f.cursor as nat),
    ensures
        old(app).local_filter matches Some(f) && match text_edit(code, f.query@, f.cursor as nat) {
            None => *final(app) == *old(app),
            Some((s, c)) => final(app).local_filter matches Some(f2) && f2 == (LocalFilter { query: f2.query, cursor: f2.cursor, ..f })
                && f2.query@ == s && f2.cursor == c
                && recompute_post(App { local_filter: Some(f2), ..*old(app) }, *final(app)),
        },
{
    let ghost a0 = *app;
    let mut f = match app.local_filter.take() {
        Some(f) => f,
        None => {
            return;
        },
    };
    let ghost f0 = f;
    let edited = handle_text_edit_key(code, &mut f.query, &mut f.cursor);
    app.local_filter = Some(f);
    assert(*app == App { local_filter: Some(f), ..a0 });
    assert(f == LocalFilter { query: f.query, cursor: f.cursor, ..f0 });
    if edited {
        recompute(app);
    } else {
        assert(f == a0.local_filter->Some_0);
    }
}

/// A key while the filter's query is edited (see `filter_key_post`).
pub fn handle_local_filter_key(app: &mut App, code: KeyCode)
    requires
        filter_key_ok(*old(app), code),
    ensures
        filter_key_post(*old(app), *final(app), code),
{
    let empty = match &app.local_filter {
        Some(f) => f.query.unicode_len() == 0,
        None => {
            return;
        },
    };
    if code == KeyCode::Enter || code == KeyCode::Down {
        commit_filter(app);
    } else if code == KeyCode::Esc || (code == KeyCode::Backspace && empty) {
        clear(app);
    } else {
        edit_filter(app, code);
    }
}


/// Up at the top of a filtered list, while its query is not edited, edits the query again
/// (where Up has no other use: not in full-art mode, the sidebar, Help, Players, or at the
/// top of a search list whose box is not focused).
pub open spec fn up_reenters_filter(app: App) -> bool {
    &&& !app.full_art_mode && !app.focus_sidebar && !(app.main_view is Help) && !(app.main_view is Players)
    &&& !(app.main_view is Search && !app.search_input_active && app.main_selected == 0)
    &&& !(app.main_view is AppSearch && !app.app_search_input_active && app.main_selected == 0)
    &&& app.local_filter matches Some(f) && !f.editing
    &&& app.main_selected == 0
}

/// Whether Up edits the filter's query again (see `up_reenters_filter`).
pub fn up_reenters(app: &App) -> (r: bool)
    ensures
        r == up_reenters_filter(*app),
{
    let editing_off = match &app.local_filter {
        Some(f) => !f.editing,
        None => false,
    };
    !app.full_art_mode && !app.focus_sidebar && !matches!(app.main_view, MainView::Help)
        && !matches!(app.main_view, MainView::Players)
        && !(matches!(app.main_view, MainView::Search) && !app.search_input_active && app.main_selected == 0)
        && !(matches!(app.main_view, MainView::AppSearch { .. }) && !app.app_search_input_active && app.main_selected == 0)
        && editing_off && app.main_selected == 0
}

/// The filter's query is edited again, the view focused when `focus` says so.
pub fn reenter_filter(app: &mut App, focus: bool)
    requires
        old(app).local_filter is Some,
    ensures
        old(app).local_filter matches Some(f) && *final(app) == (App {
            local_filter: Some(LocalFilter { editing: true, ..f }),
            focus_sidebar: if focus { false } else { old(app).focus_sidebar },
            ..*old(app)
        }),
{
    if let Some(f) = &mut app.local_filter {
        f.editing = true;
    }
    if focus {
        app.focus_sidebar = false;
    }
}

/// The `/` key: with no dialog or menu open, an open filter has its query edited again and
/// a filterable view gets a new filter (see `open_filter_post`); either way the main panel
/// takes the focus. Otherwise nothing changes.
pub open spec fn open_filter_action_post(old: App, new: App) -> bool {
    if spec_has_overlay(old) {
        new == old
    } else if old.local_filter is Some {
        new == (App {
            local_filter: Some(LocalFilter { editing: true, ..old.local_filter->Some_0 }),
            focus_sidebar: false,
            ..old
        })
    } else if spec_is_filterable(old.main_view) {
        open_filter_post(old, App { focus_sidebar: old.focus_sidebar, ..new }) && !new.focus_sidebar
    } else {
        new == old
    }
}

/// The `/` key (see `open_filter_action_post`).
pub fn open_filter_action(app: &mut App)
    ensures
        open_filter_action_post(*old(app), *final(app)),
{
    if has_overlay(app) {
        return;
    }
    if app.local_filter.is_some() {
        reenter_filter(app, true);
    } else if is_filterable(&app.main_view) {
        open(app);
        app.focus_sidebar = false;
    }
}

} // verus!
