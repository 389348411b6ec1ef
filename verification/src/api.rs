//! Server data model and the decisions made while turning server replies into it.
//!
//! JSON replies are read in the client; what they hold is handed here as plain values, and
//! the rules that shape the items (url resolution, fallbacks, playability) are stated here.
use vstd::prelude::*;
use vstd::string::*;
use crate::text::{concat2, concat3, seq_ends_with, seq_starts_with, spec_decimal, starts_with, starts_with_char, str_eq, to_owned_string, u64_to_string};
use crate::config::{parse_u64, spec_parse_u64};

verus! {

/// A player known to the server.
#[derive(Debug)]
pub struct Player {
    pub playerid: String,
    pub name: String,
    pub is_playing: u8,
    pub power: u8,
}

impl Clone for Player {
    fn clone(&self) -> (r: Self)
        ensures
            r == *self,
    {
        Player {
            playerid: self.playerid.clone(),
            name: self.name.clone(),
            is_playing: self.is_playing,
            power: self.power,
        }
    }
}

/// What a player is playing right now (the integer and text parts of the status reply).
#[derive(Debug)]
pub struct NowPlaying {
    pub title: String,
    pub artist: String,
    pub album: String,
    pub year: Option<u32>,
    pub volume: u8,
    pub is_playing: bool,
    pub shuffle: u8,
    pub repeat: u8,
    pub artwork_url: Option<String>,
    pub playlist_cur_index: Option<usize>,
}

impl Clone for NowPlaying {
    fn clone(&self) -> (r: Self)
        ensures
            r == *self,
    {
        NowPlaying {
            title: self.title.clone(),
            artist: self.artist.clone(),
            album: self.album.clone(),
            year: self.year,
            volume: self.volume,
            is_playing: self.is_playing,
            shuffle: self.shuffle,
            repeat: self.repeat,
            artwork_url: clone_opt_string(&self.artwork_url),
            playlist_cur_index: self.playlist_cur_index,
        }
    }
}

/// A track; `id` is the server id in its text form, `duration_secs` its whole seconds.
#[derive(Debug)]
pub struct Track {
    pub id: Option<String>,
    pub title: String,
    pub artist: Option<String>,
    pub album: Option<String>,
    pub duration_secs: Option<u64>,
    pub artwork_url: Option<String>,
}

impl Clone for Track {
    fn clone(&self) -> (r: Self)
        ensures
            r == *self,
    {
        Track {
            id: clone_opt_string(&self.id),
            title: self.title.clone(),
            artist: clone_opt_string(&self.artist),
            album: clone_opt_string(&self.album),
            duration_secs: self.duration_secs,
            artwork_url: clone_opt_string(&self.artwork_url),
        }
    }
}

/// An artist (or contributor) with its server id in text form.
#[derive(Debug)]
pub struct Artist {
    pub id: String,
    pub artist: String,
}

impl Clone for Artist {
    fn clone(&self) -> (r: Self)
        ensures
            r == *self,
    {
        Artist { id: self.id.clone(), artist: self.artist.clone() }
    }
}

#[derive(Debug, PartialEq, Eq, Structural, Clone, Copy)]
pub enum FolderItemType {
    Folder,
    Track,
}

/// An entry of the music-folder browser.
#[derive(Debug)]
pub struct FolderItem {
    pub id: u32,
    pub filename: String,
    pub item_type: FolderItemType,
    pub duration: Option<String>,
}

impl Clone for FolderItem {
    fn clone(&self) -> (r: Self)
        ensures
            r == *self,
    {
        FolderItem {
            id: self.id,
            filename: self.filename.clone(),
            item_type: self.item_type,
            duration: clone_opt_string(&self.duration),
        }
    }
}

/// An album with its server id in text form.
#[derive(Debug)]
pub struct Album {
    pub id: String,
    pub album: String,
    pub artist: Option<String>,
}

impl Clone for Album {
    fn clone(&self) -> (r: Self)
        ensures
            r == *self,
    {
        Album { id: self.id.clone(), album: self.album.clone(), artist: clone_opt_string(&self.artist) }
    }
}

/// A saved playlist with its server id in text form.
#[derive(Debug)]
pub struct Playlist {
    pub id: String,
    pub name: String,
}

impl Clone for Playlist {
    fn clone(&self) -> (r: Self)
        ensures
            r == *self,
    {
        Playlist { id: self.id.clone(), name: self.name.clone() }
    }
}

/// An entry of a radio/app/favourites browse tree.
#[derive(Debug)]
pub struct RadioItem {
    pub name: String,
    /// "audio", "playlist", "link", "outline", "text", "search", …
    pub item_type: String,
    /// Stream URL, present on playable items.
    pub url: Option<String>,
    /// The browser command for this subtree (e.g. "tunein", "picks").
    pub cmd: Option<String>,
    /// Opaque item id used to navigate into this item.
    pub item_id: Option<String>,
    /// Cover art URL for this item, if the server gave one.
    pub artwork_url: Option<String>,
    /// The server reports that the item contains sub-items.
    pub has_items: bool,
    /// The server reports that the item is audio content.
    pub is_audio: bool,
}

impl Clone for RadioItem {
    fn clone(&self) -> (r: Self)
        ensures
            r == *self,
    {
        RadioItem {
            name: self.name.clone(),
            item_type: self.item_type.clone(),
            url: clone_opt_string(&self.url),
            cmd: clone_opt_string(&self.cmd),
            item_id: clone_opt_string(&self.item_id),
            artwork_url: clone_opt_string(&self.artwork_url),
            has_items: self.has_items,
            is_audio: self.is_audio,
        }
    }
}

/// A copy of an optional string.
pub fn clone_opt_string(s: &Option<String>) -> (r: Option<String>)
    ensures
        r == *s,
{
    match s {
        Some(x) => Some(x.clone()),
        None => None,
    }
}

impl RadioItem {
    /// The item carries a stream URL and is audio content: flagged audio, or typed
    /// "audio"/"playlist" ("link" items may carry browse URLs that are not streams).
    pub open spec fn spec_is_playable(&self) -> bool {
        self.url.is_some() && (self.is_audio || self.item_type@ == "audio"@ || self.item_type@
            == "playlist"@)
    }

    /// The item has sub-items and is not a direct audio leaf (stream URL and audio flag).
    pub open spec fn spec_is_navigable(&self) -> bool {
        self.has_items && !(self.url.is_some() && self.is_audio)
    }

    #[verifier::when_used_as_spec(spec_is_playable)]
    pub fn is_playable(&self) -> (r: bool)
        ensures
            r == self.spec_is_playable(),
    {
        self.url.is_some() && (self.is_audio || str_eq(self.item_type.as_str(), "audio")
            || str_eq(self.item_type.as_str(), "playlist"))
    }

    #[verifier::when_used_as_spec(spec_is_navigable)]
    pub fn is_navigable(&self) -> (r: bool)
        ensures
            r == self.spec_is_navigable(),
    {
        self.has_items && !(self.url.is_some() && self.is_audio)
    }
}

/// The text view of an optional string slice.
pub open spec fn opt_str_view(o: Option<&str>) -> Option<Seq<char>> {
    match o {
        Some(s) => Some(s@),
        None => None,
    }
}

/// The text view of an optional owned string.
pub open spec fn opt_string_view(o: Option<String>) -> Option<Seq<char>> {
    match o {
        Some(s) => Some(s@),
        None => None,
    }
}

/// `{base}/music/{id}/{file}`.
pub open spec fn spec_music_image_url(base: Seq<char>, id: Seq<char>, file: Seq<char>) -> Seq<char> {
    base + "/music/"@ + id + "/"@ + file
}

/// Builds an artwork URL of the form `{base}/music/{id}/{file}`.
pub fn music_image_url(base: &str, id: &str, file: &str) -> (r: String)
    ensures
        r@ == spec_music_image_url(base@, id@, file@),
{
    let mut s = concat3(base, "/music/", id);
    s.append("/");
    s.append(file);
    s
}

/// The first present value of `a`, `b`, `c`.
pub open spec fn first_some3(a: Option<Seq<char>>, b: Option<Seq<char>>, c: Option<Seq<char>>) -> Option<Seq<char>> {
    if a.is_some() {
        a
    } else if b.is_some() {
        b
    } else {
        c
    }
}

/// An image reference made absolute: absolute http(s) URLs stay, a leading `/` is joined
/// to `base`, anything else is joined to `base` with a `/`; an empty reference is no image.
pub open spec fn spec_absolute_image_url(raw: Seq<char>, base: Seq<char>) -> Option<Seq<char>> {
    if raw.len() == 0 {
        None
    } else if seq_starts_with(raw, "http://"@) || seq_starts_with(raw, "https://"@) {
        Some(raw)
    } else if raw[0] == '/' {
        Some(base + raw)
    } else {
        Some(base + "/"@ + raw)
    }
}

/// The image of a browse item: the first of `image`, `icon`, `artwork_url` the server gave,
/// made absolute against `base`.
pub open spec fn spec_resolve_image_url(
    image: Option<Seq<char>>,
    icon: Option<Seq<char>>,
    artwork_url: Option<Seq<char>>,
    base: Seq<char>,
) -> Option<Seq<char>> {
    match first_some3(image, icon, artwork_url) {
        Some(raw) => spec_absolute_image_url(raw, base),
        None => None,
    }
}

/// Resolves the image of a browse item against the server base URL.
pub fn resolve_image_url(image: Option<&str>, icon: Option<&str>, artwork_url: Option<&str>, base: &str) -> (r: Option<String>)
    ensures
        opt_string_view(r) == spec_resolve_image_url(opt_str_view(image), opt_str_view(icon), opt_str_view(artwork_url), base@),
{
    let raw = match image {
        Some(x) => x,
        None => match icon {
            Some(x) => x,
            None => match artwork_url {
                Some(x) => x,
                None => {
                    return None;
                },
            },
        },
    };
    if raw.unicode_len() == 0 {
        None
    } else if starts_with(raw, "http://") || starts_with(raw, "https://") {
        Some(to_owned_string(raw))
    } else if starts_with_char(raw, '/') {
        Some(concat2(base, raw))
    } else {
        Some(concat3(base, "/", raw))
    }
}

/// The artwork URL of a track in a status reply: a non-empty `artwork_url` (joined to `base`
/// when it starts with `/`), else the cover of `cover_id`, else none.
pub open spec fn spec_track_artwork_url(
    artwork_url: Option<Seq<char>>,
    cover_id: Option<Seq<char>>,
    base: Seq<char>,
) -> Option<Seq<char>> {
    if artwork_url.is_some() && artwork_url.unwrap().len() > 0 {
        let u = artwork_url.unwrap();
        if u[0] == '/' {
            Some(base + u)
        } else {
            Some(u)
        }
    } else {
        match cover_id {
            Some(id) => Some(spec_music_image_url(base, id, "cover.jpg"@)),
            None => None,
        }
    }
}

/// Resolves the artwork URL of a track from its `artwork_url` field and cover id.
pub fn track_artwork_url(artwork_url: Option<&str>, cover_id: Option<&str>, base: &str) -> (r: Option<String>)
    ensures
        opt_string_view(r) == spec_track_artwork_url(opt_str_view(artwork_url), opt_str_view(cover_id), base@),
{
    if let Some(u) = artwork_url {
        if u.unicode_len() > 0 {
            if starts_with_char(u, '/') {
                return Some(concat2(base, u));
            } else {
                return Some(to_owned_string(u));
            }
        }
    }
    match cover_id {
        Some(id) => Some(music_image_url(base, id, "cover.jpg")),
        None => None,
    }
}

/// The fields of one entry of a browse or search reply, as the server sent them.
pub struct BrowseEntry {
    pub name: Option<String>,
    pub item_type: Option<String>,
    pub url: Option<String>,
    pub cmd: Option<String>,
    pub id: Option<String>,
    pub image: Option<String>,
    pub icon: Option<String>,
    pub artwork_url: Option<String>,
    pub hasitems: Option<u64>,
    pub isaudio: Option<u64>,
}

/// A string option as a slice option.
fn opt_as_str(o: &Option<String>) -> (r: Option<&str>)
    ensures
        opt_str_view(r) == opt_string_view(*o),
{
    match o {
        Some(s) => Some(s.as_str()),
        None => None,
    }
}

/// The text of an optional field, or `default` when absent.
pub open spec fn text_or(o: Option<String>, default: Seq<char>) -> Seq<char> {
    match o {
        Some(s) => s@,
        None => default,
    }
}

fn text_or_exec(o: &Option<String>, default: &str) -> (r: String)
    ensures
        r@ == text_or(*o, default@),
{
    match o {
        Some(s) => s.clone(),
        None => to_owned_string(default),
    }
}

/// The browse item built from a reply entry: name defaults to empty, type to "link", the
/// command to `default_cmd`; the flags are set when the server's counts are positive.
pub open spec fn browse_item_matches(r: RadioItem, v: BrowseEntry, base: Seq<char>, default_cmd: Seq<char>) -> bool {
    &&& r.name@ == text_or(v.name, ""@)
    &&& r.item_type@ == text_or(v.item_type, "link"@)
    &&& r.url == v.url
    &&& r.cmd.is_some() && r.cmd.unwrap()@ == text_or(v.cmd, default_cmd)
    &&& r.item_id == v.id
    &&& opt_string_view(r.artwork_url) == spec_resolve_image_url(
        opt_string_view(v.image),
        opt_string_view(v.icon),
        opt_string_view(v.artwork_url),
        base,
    )
    &&& r.has_items == (v.hasitems.is_some() && v.hasitems.unwrap() > 0)
    &&& r.is_audio == (v.isaudio.is_some() && v.isaudio.unwrap() > 0)
}

/// Builds a browse item from a browse/search reply entry.
pub fn parse_browse_item(v: &BrowseEntry, base: &str, default_cmd: &str) -> (r: RadioItem)
    ensures
        browse_item_matches(r, *v, base@, default_cmd@),
{
    RadioItem {
        name: text_or_exec(&v.name, ""),
        item_type: text_or_exec(&v.item_type, "link"),
        url: clone_opt_string(&v.url),
        cmd: Some(text_or_exec(&v.cmd, default_cmd)),
        item_id: clone_opt_string(&v.id),
        artwork_url: resolve_image_url(opt_as_str(&v.image), opt_as_str(&v.icon), opt_as_str(&v.artwork_url), base),
        has_items: match v.hasitems {
            Some(n) => n > 0,
            None => false,
        },
        is_audio: match v.isaudio {
            Some(n) => n > 0,
            None => false,
        },
    }
}

/// A top-level service entry (radio or app): a browsable link with the server's command.
pub open spec fn service_item_matches(r: RadioItem, v: BrowseEntry, base: Seq<char>) -> bool {
    &&& r.name@ == text_or(v.name, ""@)
    &&& r.item_type@ == "link"@
    &&& r.url.is_none()
    &&& r.cmd == v.cmd
    &&& r.item_id.is_none()
    &&& opt_string_view(r.artwork_url) == spec_resolve_image_url(
        opt_string_view(v.image),
        opt_string_view(v.icon),
        opt_string_view(v.artwork_url),
        base,
    )
    &&& r.has_items
    &&& !r.is_audio
}

/// Builds the item of an installed app or radio service.
pub fn parse_service_item(v: &BrowseEntry, base: &str) -> (r: RadioItem)
    ensures
        service_item_matches(r, *v, base@),
{
    RadioItem {
        name: text_or_exec(&v.name, ""),
        item_type: to_owned_string("link"),
        url: None,
        cmd: clone_opt_string(&v.cmd),
        item_id: None,
        artwork_url: resolve_image_url(opt_as_str(&v.image), opt_as_str(&v.icon), opt_as_str(&v.artwork_url), base),
        has_items: true,
        is_audio: false,
    }
}

/// A music-folder entry: kept only with an id and a file name; "track" entries are tracks,
/// anything else a folder; an empty duration counts as none. The id is narrowed to 32 bits.
pub open spec fn spec_folder_item(
    id: Option<u64>,
    filename: Option<Seq<char>>,
    kind: Option<Seq<char>>,
    duration: Option<Seq<char>>,
) -> Option<(u32, Seq<char>, FolderItemType, Option<Seq<char>>)> {
    if id.is_none() || filename.is_none() {
        None
    } else {
        Some((
            id.unwrap() as u32,
            filename.unwrap(),
            if kind == Some("track"@) { FolderItemType::Track } else { FolderItemType::Folder },
            if duration.is_some() && duration.unwrap().len() > 0 { duration } else { None },
        ))
    }
}

/// Builds a folder item from the fields of a music-folder reply entry.
pub fn folder_item(id: Option<u64>, filename: Option<&str>, kind: Option<&str>, duration: Option<&str>) -> (r: Option<FolderItem>)
    ensures
        match r {
            Some(it) => spec_folder_item(id, opt_str_view(filename), opt_str_view(kind), opt_str_view(duration))
                == Some((it.id, it.filename@, it.item_type, opt_string_view(it.duration))),
            None => spec_folder_item(id, opt_str_view(filename), opt_str_view(kind), opt_str_view(duration)).is_none(),
        },
{
    let id = match id {
        Some(n) => n,
        None => {
            return None;
        },
    };
    let filename = match filename {
        Some(f) => f,
        None => {
            return None;
        },
    };
    let item_type = match kind {
        Some(k) => if str_eq(k, "track") { FolderItemType::Track } else { FolderItemType::Folder },
        None => FolderItemType::Folder,
    };
    let duration = match duration {
        Some(d) => if d.unicode_len() > 0 { Some(to_owned_string(d)) } else { None },
        None => None,
    };
    Some(FolderItem { id: id as u32, filename: to_owned_string(filename), item_type, duration })
}

/// `s` with every trailing repetition of `suffix` removed.
pub open spec fn spec_trim_end_matches(s: Seq<char>, suffix: Seq<char>) -> Seq<char>
    decreases s.len(),
{
    if suffix.len() > 0 && seq_ends_with(s, suffix) {
        spec_trim_end_matches(s.subrange(0, s.len() - suffix.len()), suffix)
    } else {
        s
    }
}

/// The server's base URL: the JSON-RPC endpoint URL without its `/jsonrpc.js` path.
pub open spec fn spec_server_base_url(rpc_url: Seq<char>) -> Seq<char> {
    spec_trim_end_matches(rpc_url, "/jsonrpc.js"@)
}

/// Removes every trailing repetition of the JSON-RPC path from `rpc_url`.
pub fn server_base_url(rpc_url: &str) -> (r: String)
    ensures
        r@ == spec_server_base_url(rpc_url@),
{
    let suffix = "/jsonrpc.js";
    let m = suffix.unicode_len();
    proof {
        reveal_strlit("/jsonrpc.js");
    }
    let mut cur: &str = rpc_url;
    loop
        invariant
            m == suffix@.len(),
            m == 11,
            suffix@ == "/jsonrpc.js"@,
            spec_trim_end_matches(cur@, suffix@) == spec_server_base_url(rpc_url@),
        decreases cur@.len(),
    {
        let n = cur.unicode_len();
        if n < m {
            return to_owned_string(cur);
        }
        let tail = cur.substring_char(n - m, n);
        if !str_eq(tail, suffix) {
            return to_owned_string(cur);
        }
        cur = cur.substring_char(0, n - m);
    }
}

/// The id text of an optional track id; an absent id reads as the empty text.
pub open spec fn spec_extract_id(id: Option<Seq<char>>) -> Seq<char> {
    match id {
        Some(s) => s,
        None => Seq::<char>::empty(),
    }
}

/// The id of a track as the server expects it in commands.
pub fn extract_id(id: &Option<String>) -> (r: String)
    ensures
        r@ == spec_extract_id(opt_string_view(*id)),
{
    match id {
        Some(s) => s.clone(),
        None => String::new(),
    }
}

/// The fields of a player's status reply (and of its current track) that the now-playing
/// state reads, as the server sent them: a number field as `*_num` when it came as a number,
/// as `*_text` when it came as text. Ids are in their decimal text. The mixer volume is the
/// client's reading of the server's number.
pub struct StatusReply {
    pub title: Option<String>,
    pub artist: Option<String>,
    pub album: Option<String>,
    pub year_num: Option<u64>,
    pub year_text: Option<String>,
    pub volume: u8,
    pub mode: Option<String>,
    pub shuffle: Option<u64>,
    pub repeat: Option<u64>,
    pub artwork_url: Option<String>,
    pub artwork_track_id: Option<String>,
    pub track_id: Option<String>,
    pub cur_index_num: Option<u64>,
    pub cur_index_text: Option<String>,
}

/// A number field that came as a number, else as text read as a 64-bit number.
pub open spec fn number_field(num: Option<u64>, text: Option<String>) -> Option<u64> {
    match num {
        Some(n) => Some(n),
        None => match text {
            Some(t) => spec_parse_u64(t@),
            None => None,
        },
    }
}

fn number_field_exec(num: Option<u64>, text: &Option<String>) -> (r: Option<u64>)
    ensures
        r == number_field(num, *text),
{
    match num {
        Some(n) => Some(n),
        None => match text {
            Some(t) => parse_u64(t.as_str()),
            None => None,
        },
    }
}

/// The now-playing state a status reply describes: missing texts are empty; the year is kept
/// when positive (narrowed to 32 bits); playing means mode "play"; shuffle and repeat modes
/// default to 0 (narrowed to 8 bits); the cover comes from the track's `artwork_url`, else
/// from its cover track (`artwork_track_id`, else its own id); the queue position is narrowed
/// to the platform's word.
pub open spec fn now_playing_matches(np: NowPlaying, s: StatusReply, base: Seq<char>) -> bool {
    &&& np.title@ == text_or(s.title, ""@)
    &&& np.artist@ == text_or(s.artist, ""@)
    &&& np.album@ == text_or(s.album, ""@)
    &&& np.year == (match number_field(s.year_num, s.year_text) {
        Some(y) => if y > 0 { Some(y as u32) } else { None },
        None => None,
    })
    &&& np.volume == s.volume
    &&& np.is_playing == (s.mode matches Some(m) && m@ == "play"@)
    &&& np.shuffle == (match s.shuffle { Some(n) => n as u8, None => 0u8 })
    &&& np.repeat == (match s.repeat { Some(n) => n as u8, None => 0u8 })
    &&& opt_string_view(np.artwork_url) == spec_track_artwork_url(
        opt_string_view(s.artwork_url),
        if s.artwork_track_id is Some { opt_string_view(s.artwork_track_id) } else { opt_string_view(s.track_id) },
        base,
    )
    &&& np.playlist_cur_index == (match number_field(s.cur_index_num, s.cur_index_text) {
        Some(i) => Some(i as usize),
        None => None,
    })
}

/// Builds the now-playing state from a status reply (see `now_playing_matches`).
pub fn now_playing_from(s: &StatusReply, base: &str) -> (r: NowPlaying)
    ensures
        now_playing_matches(r, *s, base@),
{
    let year = match number_field_exec(s.year_num, &s.year_text) {
        Some(y) => if y > 0 { Some(y as u32) } else { None },
        None => None,
    };
    let is_playing = match &s.mode {
        Some(m) => {
            proof {
                reveal_strlit("play");
            }
            str_eq(m.as_str(), "play")
        },
        None => false,
    };
    let cover = if s.artwork_track_id.is_some() { opt_as_str(&s.artwork_track_id) } else { opt_as_str(&s.track_id) };
    let artwork_url = track_artwork_url(opt_as_str(&s.artwork_url), cover, base);
    let idx = match number_field_exec(s.cur_index_num, &s.cur_index_text) {
        Some(i) => Some(i as usize),
        None => None,
    };
    NowPlaying {
        title: text_or_exec(&s.title, ""),
        artist: text_or_exec(&s.artist, ""),
        album: text_or_exec(&s.album, ""),
        year,
        volume: s.volume,
        is_playing,
        shuffle: match s.shuffle { Some(n) => n as u8, None => 0 },
        repeat: match s.repeat { Some(n) => n as u8, None => 0 },
        artwork_url,
        playlist_cur_index: idx,
    }
}

/// The fields of one entry of a queue reply that a queue row reads; ids in decimal text, the
/// length in whole seconds as the client reads it.
pub struct QueueEntry {
    pub id: Option<String>,
    pub title: Option<String>,
    pub artist: Option<String>,
    pub album: Option<String>,
    pub duration_secs: Option<u64>,
    pub artwork_url: Option<String>,
    pub artwork_track_id: Option<String>,
}

/// The queue row a queue entry describes: title "Unknown" when missing; the cover as for the
/// now-playing state (the entry's `artwork_url`, else its cover track, else its own id).
pub open spec fn queue_track_matches(r: Track, e: QueueEntry, base: Seq<char>) -> bool {
    &&& r.id == e.id
    &&& r.title@ == text_or(e.title, "Unknown"@)
    &&& r.artist == e.artist
    &&& r.album == e.album
    &&& r.duration_secs == e.duration_secs
    &&& opt_string_view(r.artwork_url) == spec_track_artwork_url(
        opt_string_view(e.artwork_url),
        if e.artwork_track_id is Some { opt_string_view(e.artwork_track_id) } else { opt_string_view(e.id) },
        base,
    )
}

/// Builds a queue row from a queue reply entry (see `queue_track_matches`).
pub fn queue_track(e: &QueueEntry, base: &str) -> (r: Track)
    ensures
        queue_track_matches(r, *e, base@),
{
    let cover = if e.artwork_track_id.is_some() { opt_as_str(&e.artwork_track_id) } else { opt_as_str(&e.id) };
    Track {
        id: clone_opt_string(&e.id),
        title: text_or_exec(&e.title, "Unknown"),
        artist: clone_opt_string(&e.artist),
        album: clone_opt_string(&e.album),
        duration_secs: e.duration_secs,
        artwork_url: track_artwork_url(opt_as_str(&e.artwork_url), cover, base),
    }
}

/// An artist of a search reply: kept when it has a name and a numeric id.
pub fn search_artist(name: Option<&str>, id: Option<u64>) -> (r: Option<Artist>)
    ensures
        match r {
            Some(a) => name matches Some(n) && id matches Some(i) && a.artist@ == n@ && a.id@ == spec_decimal(i as nat),
            None => name is None || id is None,
        },
{
    match (name, id) {
        (Some(n), Some(i)) => Some(Artist { id: u64_to_string(i), artist: to_owned_string(n) }),
        _ => None,
    }
}

/// An album of a search reply: kept when it has a title and a numeric id.
pub fn search_album(name: Option<&str>, id: Option<u64>, artist: Option<&str>) -> (r: Option<Album>)
    ensures
        match r {
            Some(a) => name matches Some(n) && id matches Some(i) && a.album@ == n@ && a.id@ == spec_decimal(i as nat)
                && opt_string_view(a.artist) == opt_str_view(artist),
            None => name is None || id is None,
        },
{
    match (name, id) {
        (Some(n), Some(i)) => Some(Album {
            id: u64_to_string(i),
            album: to_owned_string(n),
            artist: match artist { Some(a) => Some(to_owned_string(a)), None => None },
        }),
        _ => None,
    }
}

/// A track of a search reply: kept when it has a title and a numeric id; it has no cover.
pub fn search_track(name: Option<&str>, id: Option<u64>, artist: Option<&str>, album: Option<&str>, duration_secs: Option<u64>) -> (r: Option<Track>)
    ensures
        match r {
            Some(t) => name matches Some(n) && id matches Some(i) && t.title@ == n@
                && opt_string_view(t.id) == Some(spec_decimal(i as nat))
                && opt_string_view(t.artist) == opt_str_view(artist) && opt_string_view(t.album) == opt_str_view(album)
                && t.duration_secs == duration_secs && t.artwork_url is None,
            None => name is None || id is None,
        },
{
    match (name, id) {
        (Some(n), Some(i)) => Some(Track {
            id: Some(u64_to_string(i)),
            title: to_owned_string(n),
            artist: match artist { Some(a) => Some(to_owned_string(a)), None => None },
            album: match album { Some(a) => Some(to_owned_string(a)), None => None },
            duration_secs,
            artwork_url: None,
        }),
        _ => None,
    }
}

/// A playlist of a search reply: kept when it has a name and a numeric id.
pub fn search_playlist(name: Option<&str>, id: Option<u64>) -> (r: Option<Playlist>)
    ensures
        match r {
            Some(p) => name matches Some(n) && id matches Some(i) && p.name@ == n@ && p.id@ == spec_decimal(i as nat),
            None => name is None || id is None,
        },
{
    match (name, id) {
        (Some(n), Some(i)) => Some(Playlist { id: u64_to_string(i), name: to_owned_string(n) }),
        _ => None,
    }
}

} // verus!
