//! Replies and events from the background tasks, and how each changes the state.
use vstd::prelude::*;
use vstd::string::*;
use crate::api::{Album, Artist, FolderItem, NowPlaying, Player, Playlist, RadioItem, Track};
use crate::app::{App, ConnectionState, ConfigModal, LibraryView, MainView, SearchResultItem};
use crate::filter::{reapply_if_active, reapply_post};
use crate::effects::{Effect, EffectV, Effects, Load, effects_v, no_effects, one_effect, lemma_effects_v_push};
use crate::table::{StrMap, recent_keys};
use crate::text::{str_eq, u64_to_string, spec_decimal};

verus! {

/// A reply or event from a background task.
#[derive(Debug)]
pub enum AppMsg {
    Connected,
    Disconnected,
    PlayersLoaded(Vec<Player>),
    /// Player id, its playing state.
    NowPlayingUpdated(String, NowPlaying),
    /// Player id, its queue.
    QueueLoaded(String, Vec<Track>),
    ArtistsLoaded(Vec<Artist>),
    AlbumArtistsLoaded(Vec<Artist>),
    AlbumsLoaded(Vec<Album>),
    TracksLoaded(Vec<Track>),
    RecentArtistsLoaded(Vec<Artist>),
    PopularAlbumsLoaded(Vec<Album>),
    RadioItemsLoaded(Vec<RadioItem>),
    AppItemsLoaded(Vec<RadioItem>),
    FavItemsLoaded(Vec<RadioItem>),
    FolderItemsLoaded(Vec<FolderItem>),
    PlaylistsLoaded(Vec<Playlist>),
    /// Artist id, its cover url (`None` = it has none).
    ArtistArtworkResolved(String, Option<String>),
    /// Folder id, its cover url (`None` = it has none).
    FolderArtworkResolved(u32, Option<String>),
    /// (player id, volume) as polled.
    PlayerVolumesLoaded(Vec<(String, u8)>),
    /// (player id, ids of the players in its group).
    PlayerSyncGroupsLoaded(Vec<(String, Vec<String>)>),
    StatusMsg(String),
    /// Clear the status if it is still of this generation.
    ClearStatusMsg(u64),
    SearchResultsLoaded(Vec<SearchResultItem>),
    AppSearchResultsLoaded(Vec<RadioItem>),
    Error(String),
    DiscoveredServers(Vec<String>),
}

/// How long (ms) a local volume change keeps the polled volume from overriding it.
pub const VOLUME_GUARD_MS: u64 = 3000;

/// The status line showing `msg` as a new generation, cleared after a delay unless replaced.
#[verifier::opaque]
pub open spec fn timed_status_post(old: App, new: App, effects: Seq<EffectV>, msg: String) -> bool {
    &&& new == (App { status_message: Some(msg), status_message_gen: (old.status_message_gen + 1) as u64, ..old })
    &&& effects == seq![EffectV::ClearStatusLater((old.status_message_gen + 1) as u64)]
}

/// Shows `msg` in the status line for a while.
pub fn set_timed_status(app: &mut App, msg: String) -> (r: Effects)
    requires
        old(app).status_message_gen < u64::MAX,
    ensures
        timed_status_post(*old(app), *final(app), effects_v(r), msg),
{
    proof {
        reveal(timed_status_post);
    }
    app.status_message_gen = app.status_message_gen + 1;
    app.status_message = Some(msg);
    one_effect(Effect::ClearStatusLater(app.status_message_gen))
}

/// The connection is up: the reconnecting notice goes; on a new connection the app and
/// radio services load.
#[verifier::opaque]
pub open spec fn connected_post(old: App, new: App, effects: Seq<EffectV>) -> bool {
    let was = old.connection == ConnectionState::Connected;
    let clear = old.status_message matches Some(m) && m@ == "Reconnecting..."@;
    &&& new == (App { connection: ConnectionState::Connected, status_message: if clear { None } else { old.status_message }, ..old })
    &&& effects == (if was { Seq::empty() } else { seq![EffectV::Load(Load::AppServices), EffectV::Load(Load::RadioServices)] })
}

fn set_connected(app: &mut App, status: Option<String>)
    ensures
        *final(app) == (App { connection: ConnectionState::Connected, status_message: status, ..*old(app) }),
{
    app.connection = ConnectionState::Connected;
    app.status_message = status;
}

fn service_loads(was: bool) -> (r: Effects)
    ensures
        effects_v(r) == (if was { Seq::empty() } else { seq![EffectV::Load(Load::AppServices), EffectV::Load(Load::RadioServices)] }),
{
    let mut v = no_effects();
    if !was {
        let e1 = Effect::Load(Load::AppServices);
        let ghost b1 = v;
        v.push(e1);
        proof {
            lemma_effects_v_push(b1, v, e1);
        }
        let e2 = Effect::Load(Load::RadioServices);
        let ghost b2 = v;
        v.push(e2);
        proof {
            lemma_effects_v_push(b2, v, e2);
        }
    }
    v
}

fn on_connected(app: &mut App) -> (r: Effects)
    ensures
        connected_post(*old(app), *final(app), effects_v(r)),
{
    proof {
        reveal(connected_post);
    }
    let was = app.connection == ConnectionState::Connected;
    let clear = match &app.status_message {
        Some(m) => str_eq(m.as_str(), "Reconnecting..."),
        None => false,
    };
    let status = if clear { None } else { crate::api::clone_opt_string(&app.status_message) };
    set_connected(app, status);
    service_loads(was)
}

/// Some player of `players` has id `pid`.
pub open spec fn has_player(players: Seq<Player>, pid: Seq<char>) -> bool {
    exists|i: int| 0 <= i < players.len() && #[trigger] players[i].playerid@ == pid
}

/// The player to follow once `players` are known: the active one if it is still listed,
/// else the first listed one (none when the list is empty).
pub open spec fn followed_player(active: Option<String>, players: Seq<Player>) -> Option<String> {
    match active {
        Some(p) => if has_player(players, p@) {
            Some(p)
        } else if players.len() > 0 {
            Some(players[0].playerid)
        } else {
            None
        },
        None => if players.len() > 0 { Some(players[0].playerid) } else { None },
    }
}

/// The player list arrived: it replaces the list; the followed player (see
/// `followed_player`) becomes the active one, and its playing state is polled when it
/// changed or no poll runs (`polling`).
#[verifier::opaque]
pub open spec fn players_loaded_post(old: App, new: App, effects: Seq<EffectV>, players: Vec<Player>, polling: bool) -> bool {
    match followed_player(old.active_player, players@) {
        Some(p) => {
            &&& new == (App { active_player: Some(p), players, ..old })
            &&& effects == (if old.active_player != Some(p) || !polling { seq![EffectV::StartNowPlaying(p@)] } else { Seq::empty() })
        },
        None => new == (App { players, ..old }) && effects.len() == 0,
    }
}

fn find_player(players: &Vec<Player>, pid: &str) -> (r: bool)
    ensures
        r == has_player(players@, pid@),
{
    let mut i: usize = 0;
    while i < players.len()
        invariant
            i <= players@.len(),
            forall|k: int| 0 <= k < i ==> (#[trigger] players@[k]).playerid@ != pid@,
        decreases players@.len() - i,
    {
        if str_eq(players[i].playerid.as_str(), pid) {
            return true;
        }
        i += 1;
    }
    false
}

fn on_players_loaded(app: &mut App, players: Vec<Player>, polling: bool) -> (r: Effects)
    ensures
        players_loaded_post(*old(app), *final(app), effects_v(r), players, polling),
{
    proof {
        reveal(players_loaded_post);
    }
    let first: Option<String> = if players.len() > 0 { Some(players[0].playerid.clone()) } else { None };
    let next: Option<String> = match &app.active_player {
        Some(p) => if find_player(&players, p.as_str()) { Some(p.clone()) } else { first },
        None => first,
    };
    match next {
        Some(p) => {
            let same = match &app.active_player {
                Some(a) => str_eq(a.as_str(), p.as_str()),
                None => false,
            };
            let effects = if !same || !polling { one_effect(Effect::StartNowPlaying(p.clone())) } else { no_effects() };
            set_active_and_players(app, Some(p), players);
            effects
        },
        None => {
            let keep = crate::api::clone_opt_string(&app.active_player);
            set_active_and_players(app, keep, players);
            no_effects()
        },
    }
}

fn set_active_and_players(app: &mut App, active: Option<String>, players: Vec<Player>)
    ensures
        *final(app) == (App { active_player: active, players, ..*old(app) }),
{
    app.active_player = active;
    app.players = players;
}

/// A polled playing state arrived: it applies only to the active player; while a local
/// volume change of that player is pending, the shown volume is kept.
#[verifier::opaque]
pub open spec fn now_playing_post(old: App, new: App, pid: String, np: NowPlaying) -> bool {
    if old.active_player matches Some(a) && a@ == pid@ {
        new == (App {
            now_playing: Some(match old.now_playing {
                Some(cur) => if old.volume_pending@.contains_key(pid@) { NowPlaying { volume: cur.volume, ..np } } else { np },
                None => np,
            }),
            ..old
        })
    } else {
        new == old
    }
}

fn on_now_playing(app: &mut App, pid: String, np: NowPlaying)
    ensures
        now_playing_post(*old(app), *final(app), pid, np),
{
    proof {
        reveal(now_playing_post);
    }
    let active = match &app.active_player {
        Some(a) => str_eq(a.as_str(), pid.as_str()),
        None => false,
    };
    if active {
        let mut np = np;
        if app.volume_pending.contains_key(pid.as_str()) {
            if let Some(cur) = &app.now_playing {
                np.volume = cur.volume;
            }
        }
        app.now_playing = Some(np);
    }
}

/// A polled queue arrived: it applies only to the active player.
#[verifier::opaque]
pub open spec fn queue_loaded_post(old: App, new: App, pid: String, q: Vec<Track>) -> bool {
    if old.active_player matches Some(a) && a@ == pid@ {
        new == (App { queue: q, ..old })
    } else {
        new == old
    }
}

fn on_queue_loaded(app: &mut App, pid: String, q: Vec<Track>)
    ensures
        queue_loaded_post(*old(app), *final(app), pid, q),
{
    proof {
        reveal(queue_loaded_post);
    }
    let active = match &app.active_player {
        Some(a) => str_eq(a.as_str(), pid.as_str()),
        None => false,
    };
    if active {
        app.queue = q;
    }
}

/// A browse level arrived for a tree (`radio` or apps): it becomes the shown level, and at
/// the top level it is also kept as the list of services; the cursor returns to the top when
/// that view is shown; loading ends.
#[verifier::opaque]
pub open spec fn browse_loaded_post(old: App, new: App, items: Vec<RadioItem>, radio: bool) -> bool {
    if radio {
        &&& new == (App {
            radio_services: new.radio_services,
            radio_items: items,
            main_selected: if old.main_view is Radio { 0 } else { old.main_selected },
            is_loading: false,
            ..old
        })
        &&& if old.radio_nav_stack@.len() == 0 { new.radio_services@ == items@ } else { new.radio_services == old.radio_services }
    } else {
        &&& new == (App {
            app_services: new.app_services,
            app_items: items,
            main_selected: if old.main_view is Apps { 0 } else { old.main_selected },
            is_loading: false,
            ..old
        })
        &&& if old.app_nav_stack@.len() == 0 { new.app_services@ == items@ } else { new.app_services == old.app_services }
    }
}

fn clone_items(v: &Vec<RadioItem>) -> (r: Vec<RadioItem>)
    ensures
        r@ == v@,
{
    let mut out: Vec<RadioItem> = Vec::new();
    let mut i: usize = 0;
    while i < v.len()
        invariant
            i <= v@.len(),
            out@ == v@.take(i as int),
        decreases v@.len() - i,
    {
        out.push(v[i].clone());
        assert(out@ =~= v@.take(i + 1));
        i += 1;
    }
    assert(out@ =~= v@);
    out
}

fn set_radio_level(app: &mut App, services: Option<Vec<RadioItem>>, items: Vec<RadioItem>, sel: usize)
    ensures
        *final(app) == (App {
            radio_services: match services { Some(v) => v, None => old(app).radio_services },
            radio_items: items,
            main_selected: sel,
            is_loading: false,
            ..*old(app)
        }),
{
    if let Some(v) = services {
        app.radio_services = v;
    }
    app.radio_items = items;
    app.main_selected = sel;
    app.is_loading = false;
}

fn set_app_level(app: &mut App, services: Option<Vec<RadioItem>>, items: Vec<RadioItem>, sel: usize)
    ensures
        *final(app) == (App {
            app_services: match services { Some(v) => v, None => old(app).app_services },
            app_items: items,
            main_selected: sel,
            is_loading: false,
            ..*old(app)
        }),
{
    if let Some(v) = services {
        app.app_services = v;
    }
    app.app_items = items;
    app.main_selected = sel;
    app.is_loading = false;
}

fn on_browse_loaded(app: &mut App, items: Vec<RadioItem>, radio: bool)
    ensures
        browse_loaded_post(*old(app), *final(app), items, radio),
{
    proof {
        reveal(browse_loaded_post);
    }
    if radio {
        let services = if app.radio_nav_stack.len() == 0 { Some(clone_items(&items)) } else { None };
        let sel = if matches!(app.main_view, MainView::Radio) { 0 } else { app.main_selected };
        set_radio_level(app, services, items, sel);
    } else {
        let services = if app.app_nav_stack.len() == 0 { Some(clone_items(&items)) } else { None };
        let sel = if matches!(app.main_view, MainView::Apps) { 0 } else { app.main_selected };
        set_app_level(app, services, items, sel);
    }
}

/// The volumes after a poll: each polled (player, volume) is taken in turn unless that
/// player has a pending local change.
pub open spec fn apply_polled(vols: Map<Seq<char>, u8>, polled: Seq<(String, u8)>, pending: Map<Seq<char>, u64>) -> Map<Seq<char>, u8>
    decreases polled.len(),
{
    if polled.len() == 0 {
        vols
    } else {
        let m = apply_polled(vols, polled.drop_last(), pending);
        let (pid, v) = polled.last();
        if pending.contains_key(pid@) { m } else { m.insert(pid@, v) }
    }
}

/// Polled volumes arrived at time `now`: pending marks older than the guard time are
/// dropped, then the polled volumes are taken for the players without a pending change.
#[verifier::opaque]
pub open spec fn volumes_loaded_post(old: App, new: App, polled: Vec<(String, u8)>, now: u64) -> bool {
    let pending = old.volume_pending@.restrict(recent_keys(old.volume_pending@, now, VOLUME_GUARD_MS));
    &&& new == (App { volume_pending: new.volume_pending, player_volumes: new.player_volumes, ..old })
    &&& new.volume_pending@ == pending
    &&& new.player_volumes@ == apply_polled(old.player_volumes@, polled@, pending)
}

fn apply_polled_volumes(vols: &mut StrMap<u8>, pending: &StrMap<u64>, polled: &Vec<(String, u8)>)
    ensures
        final(vols)@ == apply_polled(old(vols)@, polled@, pending@),
{
    let ghost v0 = vols@;
    let mut i: usize = 0;
    while i < polled.len()
        invariant
            i <= polled@.len(),
            vols@ == apply_polled(v0, polled@.take(i as int), pending@),
        decreases polled@.len() - i,
    {
        assert(polled@.take(i + 1).drop_last() =~= polled@.take(i as int));
        assert(polled@.take(i + 1).last() == polled@[i as int]);
        let pid = polled[i].0.as_str();
        if !pending.contains_key(pid) {
            vols.insert(pid, polled[i].1);
        }
        i += 1;
    }
    assert(polled@.take(polled@.len() as int) =~= polled@);
}

fn on_volumes_loaded(app: &mut App, polled: Vec<(String, u8)>, now: u64)
    ensures
        volumes_loaded_post(*old(app), *final(app), polled, now),
{
    proof {
        reveal(volumes_loaded_post);
    }
    app.volume_pending.retain_recent(now, VOLUME_GUARD_MS);
    apply_polled_volumes(&mut app.player_volumes, &app.volume_pending, &polled);
}

/// Polled sync groups arrived: they replace the known groups (a later entry for the same
/// player wins).
#[verifier::opaque]
pub open spec fn groups_loaded_post(old: App, new: App, groups: Vec<(String, Vec<String>)>) -> bool {
    &&& new == (App { player_sync_groups: new.player_sync_groups, ..old })
    &&& new.player_sync_groups@ == crate::table::entries_map(groups@)
}

fn on_groups_loaded(app: &mut App, groups: Vec<(String, Vec<String>)>)
    ensures
        groups_loaded_post(*old(app), *final(app), groups),
{
    proof {
        reveal(groups_loaded_post);
    }
    let ghost g = groups@;
    let mut m: StrMap<Vec<String>> = StrMap::new();
    let mut rest = groups;
    let mut i: usize = 0;
    let n = rest.len();
    while i < n
        invariant
            n == g.len(),
            i <= n,
            rest@ == g.skip(i as int),
            m@ == crate::table::entries_map(g.take(i as int)),
        decreases n - i,
    {
        let ghost before = rest@;
        let (k, v) = rest.remove(0);
        assert(before[0] == g[i as int]);
        assert(rest@ =~= g.skip(i + 1));
        assert(g.take(i + 1).drop_last() =~= g.take(i as int));
        m.insert(k.as_str(), v);
        i += 1;
    }
    assert(g.take(n as int) =~= g);
    app.player_sync_groups = m;
}

/// The status of generation `seq` is cleared unless a newer status replaced it.
pub open spec fn clear_status_post(old: App, new: App, seq: u64) -> bool {
    if old.status_message_gen == seq { new == (App { status_message: None, ..old }) } else { new == old }
}

/// A server scan finished: the found servers are listed and the first of them is selected,
/// or the scan button again when none was found.
pub open spec fn servers_found_post(old: App, new: App, servers: Vec<String>) -> bool {
    match old.config_modal {
        Some(m) => new == (App {
            config_modal: Some(ConfigModal { is_scanning: false, discovered_servers: servers,
                selected_field: if servers@.len() == 0 { 6 } else { 7 }, ..m }),
            ..old
        }),
        None => new == old,
    }
}

fn on_servers_found(app: &mut App, servers: Vec<String>)
    ensures
        servers_found_post(*old(app), *final(app), servers),
{
    if let Some(m) = &mut app.config_modal {
        m.is_scanning = false;
        let none_found = servers.len() == 0;
        m.discovered_servers = servers;
        m.selected_field = if none_found { 6 } else { 7 };
    }
}

/// A resolved cover is remembered (a missing one too, so it is not asked again): per artist
/// id, or per folder id in its decimal text.
#[verifier::opaque]
pub open spec fn artwork_post(old: App, new: App, artist: bool, key: Seq<char>, url: Option<String>) -> bool {
    if artist {
        new == (App { artist_artwork: new.artist_artwork, ..old }) && new.artist_artwork@ == old.artist_artwork@.insert(key, url)
    } else {
        new == (App { folder_artwork: new.folder_artwork, ..old }) && new.folder_artwork@ == old.folder_artwork@.insert(key, url)
    }
}

fn on_artwork(app: &mut App, artist: bool, key: String, url: Option<String>)
    ensures
        artwork_post(*old(app), *final(app), artist, key@, url),
{
    proof {
        reveal(artwork_post);
    }
    if artist {
        app.artist_artwork.insert(key.as_str(), url);
    } else {
        app.folder_artwork.insert(key.as_str(), url);
    }
}

/// The message is a list the views show.
pub open spec fn is_list_msg(msg: AppMsg) -> bool {
    msg is ArtistsLoaded || msg is AlbumArtistsLoaded || msg is AlbumsLoaded || msg is TracksLoaded
        || msg is RecentArtistsLoaded || msg is PopularAlbumsLoaded || msg is PlaylistsLoaded
        || msg is FavItemsLoaded || msg is FolderItemsLoaded || msg is SearchResultsLoaded
        || msg is AppSearchResultsLoaded
}

/// A list arrived: it replaces its list; the lists fetched on demand also end loading; the
/// favourites, folder and search lists also put the cursor at their top.
#[verifier::opaque]
pub open spec fn list_loaded_post(old: App, new: App, msg: AppMsg) -> bool {
    match msg {
        AppMsg::ArtistsLoaded(a) => new == (App { artists: a, ..old }),
        AppMsg::AlbumArtistsLoaded(a) => new == (App { album_artists: a, ..old }),
        AppMsg::AlbumsLoaded(a) => new == (App { albums: a, is_loading: false, ..old }),
        AppMsg::TracksLoaded(t) => new == (App { tracks: t, is_loading: false, ..old }),
        AppMsg::RecentArtistsLoaded(a) => new == (App { recent_artists: a, is_loading: false, ..old }),
        AppMsg::PopularAlbumsLoaded(a) => new == (App { popular_albums: a, is_loading: false, ..old }),
        AppMsg::PlaylistsLoaded(p) => new == (App { playlists: p, is_loading: false, ..old }),
        AppMsg::FavItemsLoaded(i) => new == (App { fav_items: i, main_selected: 0, is_loading: false, ..old }),
        AppMsg::FolderItemsLoaded(i) => new == (App { folder_items: i, main_selected: 0, is_loading: false, ..old }),
        AppMsg::SearchResultsLoaded(r) => new == (App { search_results: r, main_selected: 0, is_loading: false, ..old }),
        AppMsg::AppSearchResultsLoaded(r) => new == (App { app_search_results: r, main_selected: 0, is_loading: false, ..old }),
        _ => new == old,
    }
}

fn on_artists_loaded(app: &mut App, v: Vec<Artist>)
    ensures
        list_loaded_post(*old(app), *final(app), AppMsg::ArtistsLoaded(v)),
{
    proof {
        reveal(list_loaded_post);
    }
    app.artists = v;
}

fn on_album_artists_loaded(app: &mut App, v: Vec<Artist>)
    ensures
        list_loaded_post(*old(app), *final(app), AppMsg::AlbumArtistsLoaded(v)),
{
    proof {
        reveal(list_loaded_post);
    }
    app.album_artists = v;
}

fn on_albums_loaded(app: &mut App, v: Vec<Album>)
    ensures
        list_loaded_post(*old(app), *final(app), AppMsg::AlbumsLoaded(v)),
{
    proof {
        reveal(list_loaded_post);
    }
    app.albums = v;
    app.is_loading = false;
}

fn on_tracks_loaded(app: &mut App, v: Vec<Track>)
    ensures
        list_loaded_post(*old(app), *final(app), AppMsg::TracksLoaded(v)),
{
    proof {
        reveal(list_loaded_post);
    }
    app.tracks = v;
    app.is_loading = false;
}

fn on_recent_artists_loaded(app: &mut App, v: Vec<Artist>)
    ensures
        list_loaded_post(*old(app), *final(app), AppMsg::RecentArtistsLoaded(v)),
{
    proof {
        reveal(list_loaded_post);
    }
    app.recent_artists = v;
    app.is_loading = false;
}

fn on_popular_albums_loaded(app: &mut App, v: Vec<Album>)
    ensures
        list_loaded_post(*old(app), *final(app), AppMsg::PopularAlbumsLoaded(v)),
{
    proof {
        reveal(list_loaded_post);
    }
    app.popular_albums = v;
    app.is_loading = false;
}

fn on_playlists_loaded(app: &mut App, v: Vec<Playlist>)
    ensures
        list_loaded_post(*old(app), *final(app), AppMsg::PlaylistsLoaded(v)),
{
    proof {
        reveal(list_loaded_post);
    }
    app.playlists = v;
    app.is_loading = false;
}

fn on_fav_items_loaded(app: &mut App, v: Vec<RadioItem>)
    ensures
        list_loaded_post(*old(app), *final(app), AppMsg::FavItemsLoaded(v)),
{
    proof {
        reveal(list_loaded_post);
    }
    app.fav_items = v;
    app.main_selected = 0;
    app.is_loading = false;
}

fn on_folder_items_loaded(app: &mut App, v: Vec<FolderItem>)
    ensures
        list_loaded_post(*old(app), *final(app), AppMsg::FolderItemsLoaded(v)),
{
    proof {
        reveal(list_loaded_post);
    }
    app.folder_items = v;
    app.main_selected = 0;
    app.is_loading = false;
}

fn on_search_results_loaded(app: &mut App, v: Vec<SearchResultItem>)
    ensures
        list_loaded_post(*old(app), *final(app), AppMsg::SearchResultsLoaded(v)),
{
    proof {
        reveal(list_loaded_post);
    }
    app.search_results = v;
    app.main_selected = 0;
    app.is_loading = false;
}

fn on_app_search_results_loaded(app: &mut App, v: Vec<RadioItem>)
    ensures
        list_loaded_post(*old(app), *final(app), AppMsg::AppSearchResultsLoaded(v)),
{
    proof {
        reveal(list_loaded_post);
    }
    app.app_search_results = v;
    app.main_selected = 0;
    app.is_loading = false;
}

fn on_list_loaded(app: &mut App, msg: AppMsg)
    requires
        is_list_msg(msg),
    ensures
        list_loaded_post(*old(app), *final(app), msg),
{
    match msg {
        AppMsg::ArtistsLoaded(v) => on_artists_loaded(app, v),
        AppMsg::AlbumArtistsLoaded(v) => on_album_artists_loaded(app, v),
        AppMsg::AlbumsLoaded(v) => on_albums_loaded(app, v),
        AppMsg::TracksLoaded(v) => on_tracks_loaded(app, v),
        AppMsg::RecentArtistsLoaded(v) => on_recent_artists_loaded(app, v),
        AppMsg::PopularAlbumsLoaded(v) => on_popular_albums_loaded(app, v),
        AppMsg::PlaylistsLoaded(v) => on_playlists_loaded(app, v),
        AppMsg::FavItemsLoaded(v) => on_fav_items_loaded(app, v),
        AppMsg::FolderItemsLoaded(v) => on_folder_items_loaded(app, v),
        AppMsg::SearchResultsLoaded(v) => on_search_results_loaded(app, v),
        AppMsg::AppSearchResultsLoaded(v) => on_app_search_results_loaded(app, v),
        _ => {},
    }
}

/// The state and requests after message `msg`; `polling` tells whether the playing state
/// of a player is being polled, `now` is the time in milliseconds.
pub open spec fn msg_post(old: App, new: App, effects: Seq<EffectV>, msg: AppMsg, polling: bool, now: u64) -> bool {
    if is_list_msg(msg) {
        list_loaded_post(old, new, msg) && effects.len() == 0
    } else {
        match msg {
            AppMsg::Connected => connected_post(old, new, effects),
            AppMsg::Disconnected => new == (App { connection: ConnectionState::Disconnected, ..old }) && effects.len() == 0,
            AppMsg::PlayersLoaded(p) => players_loaded_post(old, new, effects, p, polling),
            AppMsg::NowPlayingUpdated(pid, np) => now_playing_post(old, new, pid, np) && effects.len() == 0,
            AppMsg::QueueLoaded(pid, q) => queue_loaded_post(old, new, pid, q) && effects.len() == 0,
            AppMsg::RadioItemsLoaded(i) => browse_loaded_post(old, new, i, true) && effects.len() == 0,
            AppMsg::AppItemsLoaded(i) => browse_loaded_post(old, new, i, false) && effects.len() == 0,
            AppMsg::ArtistArtworkResolved(id, url) => artwork_post(old, new, true, id@, url) && effects.len() == 0,
            AppMsg::FolderArtworkResolved(fid, url) => artwork_post(old, new, false, spec_decimal(fid as nat), url) && effects.len() == 0,
            AppMsg::PlayerVolumesLoaded(v) => volumes_loaded_post(old, new, v, now) && effects.len() == 0,
            AppMsg::PlayerSyncGroupsLoaded(g) => groups_loaded_post(old, new, g) && effects.len() == 0,
            AppMsg::StatusMsg(m) => timed_status_post(old, new, effects, m),
            AppMsg::Error(m) => timed_status_post(old, new, effects, m),
            AppMsg::ClearStatusMsg(seq) => clear_status_post(old, new, seq) && effects.len() == 0,
            AppMsg::DiscoveredServers(servers) => servers_found_post(old, new, servers) && effects.len() == 0,
            _ => new == old && effects.len() == 0,
        }
    }
}

fn is_list_msg_exec(msg: &AppMsg) -> (r: bool)
    ensures
        r == is_list_msg(*msg),
{
    match msg {
        AppMsg::ArtistsLoaded(_) | AppMsg::AlbumArtistsLoaded(_) | AppMsg::AlbumsLoaded(_) | AppMsg::TracksLoaded(_)
        | AppMsg::RecentArtistsLoaded(_) | AppMsg::PopularAlbumsLoaded(_) | AppMsg::PlaylistsLoaded(_)
        | AppMsg::FavItemsLoaded(_) | AppMsg::FolderItemsLoaded(_) | AppMsg::SearchResultsLoaded(_)
        | AppMsg::AppSearchResultsLoaded(_) => true,
        _ => false,
    }
}

fn on_clear_status(app: &mut App, seq: u64)
    ensures
        clear_status_post(*old(app), *final(app), seq),
{
    if app.status_message_gen == seq {
        app.status_message = None;
    }
}

fn on_disconnected(app: &mut App)
    ensures
        *final(app) == (App { connection: ConnectionState::Disconnected, ..*old(app) }),
{
    app.connection = ConnectionState::Disconnected;
}

fn apply_msg(app: &mut App, msg: AppMsg, polling: bool, now: u64) -> (r: Effects)
    requires
        (msg is StatusMsg || msg is Error) ==> old(app).status_message_gen < u64::MAX,
    ensures
        msg_post(*old(app), *final(app), effects_v(r), msg, polling, now),
{
    if is_list_msg_exec(&msg) {
        on_list_loaded(app, msg);
        return no_effects();
    }
    match msg {
        AppMsg::Connected => on_connected(app),
        AppMsg::Disconnected => {
            on_disconnected(app);
            no_effects()
        },
        AppMsg::PlayersLoaded(p) => on_players_loaded(app, p, polling),
        AppMsg::NowPlayingUpdated(pid, np) => {
            on_now_playing(app, pid, np);
            no_effects()
        },
        AppMsg::QueueLoaded(pid, q) => {
            on_queue_loaded(app, pid, q);
            no_effects()
        },
        AppMsg::RadioItemsLoaded(i) => {
            on_browse_loaded(app, i, true);
            no_effects()
        },
        AppMsg::AppItemsLoaded(i) => {
            on_browse_loaded(app, i, false);
            no_effects()
        },
        AppMsg::ArtistArtworkResolved(id, url) => {
            on_artwork(app, true, id, url);
            no_effects()
        },
        AppMsg::FolderArtworkResolved(fid, url) => {
            on_artwork(app, false, u64_to_string(fid as u64), url);
            no_effects()
        },
        AppMsg::PlayerVolumesLoaded(v) => {
            on_volumes_loaded(app, v, now);
            no_effects()
        },
        AppMsg::PlayerSyncGroupsLoaded(g) => {
            on_groups_loaded(app, g);
            no_effects()
        },
        AppMsg::StatusMsg(m) => set_timed_status(app, m),
        AppMsg::Error(m) => set_timed_status(app, m),
        AppMsg::ClearStatusMsg(seq) => {
            on_clear_status(app, seq);
            no_effects()
        },
        AppMsg::DiscoveredServers(servers) => {
            on_servers_found(app, servers);
            no_effects()
        },
        _ => no_effects(),
    }
}


/// The message replaces the list that backs the view `owner` (the queue only when it is the
/// active player's).
pub open spec fn reloads(msg: AppMsg, owner: MainView, active: Option<String>) -> bool {
    match msg {
        AppMsg::ArtistsLoaded(_) => owner == MainView::Library(LibraryView::Artists),
        AppMsg::AlbumArtistsLoaded(_) => owner == MainView::Library(LibraryView::AlbumArtists),
        AppMsg::RecentArtistsLoaded(_) => owner == MainView::Library(LibraryView::RecentlyPlayedArtists),
        AppMsg::AlbumsLoaded(_) => owner matches MainView::Library(LibraryView::Albums { .. }),
        AppMsg::PopularAlbumsLoaded(_) => owner == MainView::Library(LibraryView::PopularAlbums),
        AppMsg::TracksLoaded(_) => owner matches MainView::Library(LibraryView::Tracks { .. }),
        AppMsg::PlaylistsLoaded(_) => owner == MainView::Library(LibraryView::Playlists),
        AppMsg::FolderItemsLoaded(_) => owner matches MainView::Library(LibraryView::Folder { .. }),
        AppMsg::FavItemsLoaded(_) => owner == MainView::Favourites,
        AppMsg::RadioItemsLoaded(_) => owner == MainView::Radio,
        AppMsg::AppItemsLoaded(_) => owner == MainView::Apps,
        AppMsg::QueueLoaded(pid, _) => owner == MainView::Queue && (active matches Some(a) && a@ == pid@),
        _ => false,
    }
}

fn reloads_exec(msg: &AppMsg, owner: &MainView, active: &Option<String>) -> (r: bool)
    ensures
        r == reloads(*msg, *owner, *active),
{
    match msg {
        AppMsg::ArtistsLoaded(_) => matches!(owner, MainView::Library(LibraryView::Artists)),
        AppMsg::AlbumArtistsLoaded(_) => matches!(owner, MainView::Library(LibraryView::AlbumArtists)),
        AppMsg::RecentArtistsLoaded(_) => matches!(owner, MainView::Library(LibraryView::RecentlyPlayedArtists)),
        AppMsg::AlbumsLoaded(_) => matches!(owner, MainView::Library(LibraryView::Albums { .. })),
        AppMsg::PopularAlbumsLoaded(_) => matches!(owner, MainView::Library(LibraryView::PopularAlbums)),
        AppMsg::TracksLoaded(_) => matches!(owner, MainView::Library(LibraryView::Tracks { .. })),
        AppMsg::PlaylistsLoaded(_) => matches!(owner, MainView::Library(LibraryView::Playlists)),
        AppMsg::FolderItemsLoaded(_) => matches!(owner, MainView::Library(LibraryView::Folder { .. })),
        AppMsg::FavItemsLoaded(_) => matches!(owner, MainView::Favourites),
        AppMsg::RadioItemsLoaded(_) => matches!(owner, MainView::Radio),
        AppMsg::AppItemsLoaded(_) => matches!(owner, MainView::Apps),
        AppMsg::QueueLoaded(pid, _) => matches!(owner, MainView::Queue) && match active {
            Some(a) => str_eq(a.as_str(), pid.as_str()),
            None => false,
        },
        _ => false,
    }
}

/// A message that reloads a list leaves the filter as it was.
proof fn lemma_reload_keeps_filter(old: App, mid: App, effects: Seq<EffectV>, msg: AppMsg, polling: bool, now: u64)
    requires
        old.local_filter is Some,
        reloads(msg, old.local_filter->Some_0.owner, old.active_player),
        msg_post(old, mid, effects, msg, polling, now),
    ensures
        mid.local_filter == old.local_filter,
{
    reveal(list_loaded_post);
    reveal(queue_loaded_post);
    reveal(browse_loaded_post);
}

/// A message from the background tasks: it takes effect as `msg_post` says, and when it
/// replaced the full list under the open filter, the filter takes the new list and narrows
/// it again (see `reapply_post`).
pub open spec fn handled_msg_post(old: App, new: App, effects: Seq<EffectV>, msg: AppMsg, polling: bool, now: u64) -> bool {
    if old.local_filter is Some && reloads(msg, old.local_filter->Some_0.owner, old.active_player) {
        exists|mid: App| #[trigger] msg_post(old, mid, effects, msg, polling, now)
            && reapply_post(mid, new, old.local_filter->Some_0.owner)
    } else {
        msg_post(old, new, effects, msg, polling, now)
    }
}

/// Applies a message from the background tasks (see `handled_msg_post`).
pub fn handle_msg(app: &mut App, msg: AppMsg, polling: bool, now: u64) -> (r: Effects)
    requires
        (msg is StatusMsg || msg is Error) ==> old(app).status_message_gen < u64::MAX,
    ensures
        handled_msg_post(*old(app), *final(app), effects_v(r), msg, polling, now),
{
    let reload = match &app.local_filter {
        Some(f) => reloads_exec(&msg, &f.owner, &app.active_player),
        None => false,
    };
    let effects = apply_msg(app, msg, polling, now);
    if reload {
        let ghost mid = *app;
        proof {
            lemma_reload_keeps_filter(*old(app), mid, effects_v(effects), msg, polling, now);
        }
        let owner = match &app.local_filter {
            Some(f) => f.owner.clone(),
            None => {
                return effects;
            },
        };
        reapply_if_active(app, &owner);
        assert(msg_post(*old(app), mid, effects_v(effects), msg, polling, now));
    }
    effects
}

} // verus!
