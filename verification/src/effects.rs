//! Requests that the state transitions hand to the client to carry out.
//!
//! The transitions decide; the client performs the network calls these describe and feeds
//! the replies back as messages.
use vstd::prelude::*;
use crate::app::SearchScope;

verus! {

/// One call to the music server. `S` is the text type (`String` when run, its character
/// sequence in contracts).
#[derive(Debug)]
pub enum Call<S> {
    Play(S),
    Pause(S),
    Stop(S),
    Next(S),
    Prev(S),
    SetPower(S, bool),
    SetShuffle(S, u8),
    SetRepeat(S, u8),
    PlayTrackIndex(S, usize),
    ClearQueue(S),
    DeleteQueueItem(S, usize),
    DeleteQueueItemsBefore(S, usize),
    /// Player, index, queue length.
    DeleteQueueItemsAfter(S, usize, usize),
    PlayTrack(S, S),
    PlayAlbum(S, S),
    PlayArtist(S, S),
    PlayPlaylist(S, S),
    PlayFolder(S, u32),
    AddTrackToQueue(S, S),
    AddAlbumToQueue(S, S),
    AddArtistToQueue(S, S),
    AddPlaylistToQueue(S, S),
    AddFolderToQueue(S, u32),
    InsertTrackNext(S, S),
    InsertPlaylistNext(S, S),
    /// Player, url, title.
    InsertUrlNextWithTitle(S, S, S),
    /// Player, url, title.
    PlayUrlWithTitle(S, S, S),
    /// Player, the player whose group it joins.
    SyncWith(S, S),
    Unsync(S),
}

/// A background load whose reply arrives as a message.
#[derive(Debug)]
pub enum Load<S> {
    RadioServices,
    AppServices,
    /// Player, item to open (`None` = top level).
    FavItems(S, Option<S>),
    /// Albums of an artist (`None` = all albums).
    Albums(Option<S>),
    Tracks(S),
    AllTracks,
    Playlists,
    FolderItems(Option<u32>),
    /// Player, command, item.
    RadioItems(S, S, Option<S>),
    /// Player, command, item.
    AppItems(S, S, Option<S>),
    RecentArtists(usize),
    PopularAlbums(usize),
}

/// Something the client must do after a transition. `S` is the text type, `L` the type of a
/// list of (title, url) pairs, `P` the type of a list of player ids.
#[derive(Debug)]
pub enum Effect<S, L, P> {
    /// Make the call and ignore its outcome.
    Fire(Call<S>),
    /// Make the call; when it succeeds show the status text.
    Report(Call<S>, S),
    /// Make the call for the player; when it succeeds start playback if the flag is set
    /// (the queue was empty) and show the status text.
    Enqueue(Call<S>, S, bool, S),
    /// Add (url, title) to the player's favourites and report the outcome.
    Favourite(S, S, S),
    /// Append (url, title) to the player's queue, start playback if the flag is set, report.
    AddUrl(S, S, S, bool),
    /// Clear the player's queue, append (url, title), play, report.
    ReplaceWithUrl(S, S, S),
    /// Append each (title, url) to the player's queue, start playback if the flag is set and
    /// report how many were added from the titled folder.
    AddUrlFolder(S, L, S, bool),
    /// Clear the player's queue, append each (title, url), play and report.
    ReplaceWithUrlFolder(S, L, S),
    /// Load an album into the player, then jump to a track index.
    PlayAlbumAt(S, S, usize),
    /// Power every listed player on or off.
    PowerAll(P, bool),
    /// Send a player's new volume through the debounced volume channel.
    SendVolume(S, u8),
    Load(Load<S>),
    /// (Re)start polling the now-playing state of a player.
    StartNowPlaying(S),
    /// Search the library/radios/apps: query, scope, player.
    Search(S, SearchScope, S),
    /// Search inside one app: query, command, search item, player.
    AppSearch(S, S, Option<S>, S),
    /// Scan the network for servers: broadcast mask, user, password.
    ScanServers(S, S, S),
    /// Clear the status line after the usual delay, unless a newer status (another
    /// generation) replaced it.
    ClearStatusLater(u64),
    /// Seek the player's current track to the point of its progress bar that was clicked:
    /// player, clicked column, first column of the bar, width of the bar (the track's
    /// length, and so the time, is the client's to know).
    SeekAt(S, u16, u16, u16),
}

/// Runtime form of the effects.
pub type Effects = Vec<Effect<String, Vec<(String, String)>, Vec<String>>>;

/// Contract form of one effect.
pub type EffectV = Effect<Seq<char>, Seq<(Seq<char>, Seq<char>)>, Seq<Seq<char>>>;

pub open spec fn opt_v(o: Option<String>) -> Option<Seq<char>> {
    match o {
        Some(s) => Some(s@),
        None => None,
    }
}

pub open spec fn call_v(c: Call<String>) -> Call<Seq<char>> {
    match c {
        Call::Play(p) => Call::Play(p@),
        Call::Pause(p) => Call::Pause(p@),
        Call::Stop(p) => Call::Stop(p@),
        Call::Next(p) => Call::Next(p@),
        Call::Prev(p) => Call::Prev(p@),
        Call::SetPower(p, b) => Call::SetPower(p@, b),
        Call::SetShuffle(p, v) => Call::SetShuffle(p@, v),
        Call::SetRepeat(p, v) => Call::SetRepeat(p@, v),
        Call::PlayTrackIndex(p, i) => Call::PlayTrackIndex(p@, i),
        Call::ClearQueue(p) => Call::ClearQueue(p@),
        Call::DeleteQueueItem(p, i) => Call::DeleteQueueItem(p@, i),
        Call::DeleteQueueItemsBefore(p, i) => Call::DeleteQueueItemsBefore(p@, i),
        Call::DeleteQueueItemsAfter(p, i, n) => Call::DeleteQueueItemsAfter(p@, i, n),
        Call::PlayTrack(p, x) => Call::PlayTrack(p@, x@),
        Call::PlayAlbum(p, x) => Call::PlayAlbum(p@, x@),
        Call::PlayArtist(p, x) => Call::PlayArtist(p@, x@),
        Call::PlayPlaylist(p, x) => Call::PlayPlaylist(p@, x@),
        Call::PlayFolder(p, x) => Call::PlayFolder(p@, x),
        Call::AddTrackToQueue(p, x) => Call::AddTrackToQueue(p@, x@),
        Call::AddAlbumToQueue(p, x) => Call::AddAlbumToQueue(p@, x@),
        Call::AddArtistToQueue(p, x) => Call::AddArtistToQueue(p@, x@),
        Call::AddPlaylistToQueue(p, x) => Call::AddPlaylistToQueue(p@, x@),
        Call::AddFolderToQueue(p, x) => Call::AddFolderToQueue(p@, x),
        Call::InsertTrackNext(p, x) => Call::InsertTrackNext(p@, x@),
        Call::InsertPlaylistNext(p, x) => Call::InsertPlaylistNext(p@, x@),
        Call::InsertUrlNextWithTitle(p, u, t) => Call::InsertUrlNextWithTitle(p@, u@, t@),
        Call::PlayUrlWithTitle(p, u, t) => Call::PlayUrlWithTitle(p@, u@, t@),
        Call::SyncWith(p, m) => Call::SyncWith(p@, m@),
        Call::Unsync(p) => Call::Unsync(p@),
    }
}

pub open spec fn load_v(l: Load<String>) -> Load<Seq<char>> {
    match l {
        Load::RadioServices => Load::RadioServices,
        Load::AppServices => Load::AppServices,
        Load::FavItems(p, i) => Load::FavItems(p@, opt_v(i)),
        Load::Albums(a) => Load::Albums(opt_v(a)),
        Load::Tracks(a) => Load::Tracks(a@),
        Load::AllTracks => Load::AllTracks,
        Load::Playlists => Load::Playlists,
        Load::FolderItems(f) => Load::FolderItems(f),
        Load::RadioItems(p, c, i) => Load::RadioItems(p@, c@, opt_v(i)),
        Load::AppItems(p, c, i) => Load::AppItems(p@, c@, opt_v(i)),
        Load::RecentArtists(n) => Load::RecentArtists(n),
        Load::PopularAlbums(n) => Load::PopularAlbums(n),
    }
}

pub open spec fn pairs_v(l: Vec<(String, String)>) -> Seq<(Seq<char>, Seq<char>)> {
    l@.map_values(|p: (String, String)| (p.0@, p.1@))
}

pub open spec fn ids_v(l: Vec<String>) -> Seq<Seq<char>> {
    l@.map_values(|s: String| s@)
}

pub open spec fn effect_v(e: Effect<String, Vec<(String, String)>, Vec<String>>) -> EffectV {
    match e {
        Effect::Fire(c) => Effect::Fire(call_v(c)),
        Effect::Report(c, s) => Effect::Report(call_v(c), s@),
        Effect::Enqueue(c, p, b, s) => Effect::Enqueue(call_v(c), p@, b, s@),
        Effect::Favourite(p, u, t) => Effect::Favourite(p@, u@, t@),
        Effect::AddUrl(p, u, t, b) => Effect::AddUrl(p@, u@, t@, b),
        Effect::ReplaceWithUrl(p, u, t) => Effect::ReplaceWithUrl(p@, u@, t@),
        Effect::AddUrlFolder(p, l, t, b) => Effect::AddUrlFolder(p@, pairs_v(l), t@, b),
        Effect::ReplaceWithUrlFolder(p, l, t) => Effect::ReplaceWithUrlFolder(p@, pairs_v(l), t@),
        Effect::PlayAlbumAt(p, a, i) => Effect::PlayAlbumAt(p@, a@, i),
        Effect::PowerAll(l, b) => Effect::PowerAll(ids_v(l), b),
        Effect::SendVolume(p, v) => Effect::SendVolume(p@, v),
        Effect::Load(l) => Effect::Load(load_v(l)),
        Effect::StartNowPlaying(p) => Effect::StartNowPlaying(p@),
        Effect::Search(q, sc, p) => Effect::Search(q@, sc, p@),
        Effect::AppSearch(q, c, i, p) => Effect::AppSearch(q@, c@, opt_v(i), p@),
        Effect::ScanServers(m, u, p) => Effect::ScanServers(m@, u@, p@),
        Effect::ClearStatusLater(g) => Effect::ClearStatusLater(g),
        Effect::SeekAt(p, c, x, w) => Effect::SeekAt(p@, c, x, w),
    }
}

/// Contract form of a list of effects.
pub open spec fn effects_v(v: Effects) -> Seq<EffectV> {
    v@.map_values(|e: Effect<String, Vec<(String, String)>, Vec<String>>| effect_v(e))
}

/// The contract form of a list of one effect is that effect's form alone.
pub proof fn lemma_effects_v_one(v: Effects)
    requires
        v@.len() == 1,
    ensures
        effects_v(v) == seq![effect_v(v@[0])],
{
    assert(effects_v(v) =~= seq![effect_v(v@[0])]);
}

/// The contract form of an empty list of effects is empty.
pub proof fn lemma_effects_v_empty(v: Effects)
    requires
        v@.len() == 0,
    ensures
        effects_v(v) == Seq::<EffectV>::empty(),
{
    assert(effects_v(v) =~= Seq::<EffectV>::empty());
}

/// The contract form of two lists of effects one after the other.
pub proof fn lemma_effects_v_append(a: Effects, b: Effects, c: Effects)
    requires
        c@ == a@ + b@,
    ensures
        effects_v(c) == effects_v(a) + effects_v(b),
{
    assert(effects_v(c) =~= effects_v(a) + effects_v(b));
}

/// No effects.
pub fn no_effects() -> (r: Effects)
    ensures
        effects_v(r) == Seq::<EffectV>::empty(),
{
    let v: Effects = Vec::new();
    proof { lemma_effects_v_empty(v); }
    v
}

/// Exactly the effect `e`.
pub fn one_effect(e: Effect<String, Vec<(String, String)>, Vec<String>>) -> (r: Effects)
    ensures
        effects_v(r) == seq![effect_v(e)],
{
    let mut v: Effects = Vec::new();
    v.push(e);
    proof { lemma_effects_v_one(v); }
    v
}

/// Pushing an effect pushes its contract form.
pub proof fn lemma_effects_v_push(v: Effects, w: Effects, e: Effect<String, Vec<(String, String)>, Vec<String>>)
    requires
        w@ == v@.push(e),
    ensures
        effects_v(w) == effects_v(v).push(effect_v(e)),
{
    assert(effects_v(w) =~= effects_v(v).push(effect_v(e)));
}

} // verus!
