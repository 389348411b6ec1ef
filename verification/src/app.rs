//! Application state: views, dialogs and the data the screens show.
use vstd::prelude::*;
use vstd::string::*;
use crate::api::{Album, Artist, FolderItem, NowPlaying, Player, Playlist, RadioItem, Track, clone_opt_string};
use crate::text::{char_count, to_owned_string, u64_to_string, spec_decimal, str_eq};
use crate::table::StrMap;

verus! {

#[derive(Debug, PartialEq, Eq, Structural, Clone, Copy)]
pub enum ConnectionState {
    Connected,
    Disconnected,
    Reconnecting,
}

#[derive(Debug, PartialEq, Eq, Structural, Clone, Copy)]
pub enum SidebarItem {
    MyMusic,
    Search,
    Radio,
    Apps,
    Favourites,
    Queue,
    Players,
    Help,
}

#[derive(Debug)]
pub enum LibraryView {
    Artists,
    AlbumArtists,
    Albums { artist_id: Option<String> },
    /// `None` = all tracks.
    Tracks { album_id: Option<String> },
    Folder { folder_id: Option<u32> },
    Playlists,
    RecentlyPlayedArtists,
    PopularAlbums,
}

impl Clone for LibraryView {
    fn clone(&self) -> (r: Self)
        ensures
            r == *self,
    {
        match self {
            LibraryView::Artists => LibraryView::Artists,
            LibraryView::AlbumArtists => LibraryView::AlbumArtists,
            LibraryView::Albums { artist_id } => LibraryView::Albums { artist_id: clone_opt_string(artist_id) },
            LibraryView::Tracks { album_id } => LibraryView::Tracks { album_id: clone_opt_string(album_id) },
            LibraryView::Folder { folder_id } => LibraryView::Folder { folder_id: *folder_id },
            LibraryView::Playlists => LibraryView::Playlists,
            LibraryView::RecentlyPlayedArtists => LibraryView::RecentlyPlayedArtists,
            LibraryView::PopularAlbums => LibraryView::PopularAlbums,
        }
    }
}

#[derive(Debug)]
pub enum MainView {
    Library(LibraryView),
    MyMusic,
    Queue,
    Players,
    Radio,
    Apps,
    Favourites,
    Help,
    Search,
    /// Search inside one app; `item_id` is the id of the app's search entry.
    AppSearch { cmd: String, item_id: Option<String> },
}

impl Clone for MainView {
    fn clone(&self) -> (r: Self)
        ensures
            r == *self,
    {
        match self {
            MainView::Library(v) => MainView::Library(v.clone()),
            MainView::MyMusic => MainView::MyMusic,
            MainView::Queue => MainView::Queue,
            MainView::Players => MainView::Players,
            MainView::Radio => MainView::Radio,
            MainView::Apps => MainView::Apps,
            MainView::Favourites => MainView::Favourites,
            MainView::Help => MainView::Help,
            MainView::Search => MainView::Search,
            MainView::AppSearch { cmd, item_id } => MainView::AppSearch {
                cmd: cmd.clone(),
                item_id: clone_opt_string(item_id),
            },
        }
    }
}

/// The entries of the My Music menu, in display order.
#[derive(Debug, PartialEq, Eq, Structural, Clone, Copy)]
pub enum MyMusicEntry {
    Artists,
    AlbumArtists,
    RecentlyPlayedArtists,
    Albums,
    PopularAlbums,
    Tracks,
    Playlists,
    Folders,
}

/// The My Music entry shown at row `i`.
pub open spec fn spec_my_music_entry(i: int) -> Option<MyMusicEntry> {
    if i == 0 {
        Some(MyMusicEntry::Artists)
    } else if i == 1 {
        Some(MyMusicEntry::AlbumArtists)
    } else if i == 2 {
        Some(MyMusicEntry::RecentlyPlayedArtists)
    } else if i == 3 {
        Some(MyMusicEntry::Albums)
    } else if i == 4 {
        Some(MyMusicEntry::PopularAlbums)
    } else if i == 5 {
        Some(MyMusicEntry::Tracks)
    } else if i == 6 {
        Some(MyMusicEntry::Playlists)
    } else if i == 7 {
        Some(MyMusicEntry::Folders)
    } else {
        None
    }
}

/// The My Music entry at row `i`, if the row exists.
pub fn my_music_entry(i: usize) -> (r: Option<MyMusicEntry>)
    ensures
        r == spec_my_music_entry(i as int),
{
    if i == 0 {
        Some(MyMusicEntry::Artists)
    } else if i == 1 {
        Some(MyMusicEntry::AlbumArtists)
    } else if i == 2 {
        Some(MyMusicEntry::RecentlyPlayedArtists)
    } else if i == 3 {
        Some(MyMusicEntry::Albums)
    } else if i == 4 {
        Some(MyMusicEntry::PopularAlbums)
    } else if i == 5 {
        Some(MyMusicEntry::Tracks)
    } else if i == 6 {
        Some(MyMusicEntry::Playlists)
    } else if i == 7 {
        Some(MyMusicEntry::Folders)
    } else {
        None
    }
}

/// Number of rows of the My Music menu.
pub const MY_MUSIC_ENTRIES: usize = 8;

#[derive(Debug)]
pub enum SearchResultItem {
    Artist(Artist),
    Album(Album),
    Track(Track),
    Playlist(Playlist),
    AppItem(RadioItem),
    RadioItem(RadioItem),
}

impl Clone for SearchResultItem {
    fn clone(&self) -> (r: Self)
        ensures
            r == *self,
    {
        match self {
            SearchResultItem::Artist(a) => SearchResultItem::Artist(a.clone()),
            SearchResultItem::Album(a) => SearchResultItem::Album(a.clone()),
            SearchResultItem::Track(t) => SearchResultItem::Track(t.clone()),
            SearchResultItem::Playlist(p) => SearchResultItem::Playlist(p.clone()),
            SearchResultItem::AppItem(i) => SearchResultItem::AppItem(i.clone()),
            SearchResultItem::RadioItem(i) => SearchResultItem::RadioItem(i.clone()),
        }
    }
}

#[derive(Debug, PartialEq, Eq, Structural, Clone, Copy)]
pub enum SearchScope {
    MyMusic,
    Radios,
    Apps,
    All,
}

/// Number of image render modes offered by the configuration dialog.
pub const IMAGE_PROTOCOL_COUNT: usize = 5;

/// The image render modes, in the order the configuration dialog cycles through them.
pub open spec fn spec_image_protocol(idx: int) -> Seq<char> {
    if idx == 0 {
        "auto"@
    } else if idx == 1 {
        "halfblocks"@
    } else if idx == 2 {
        "sixel"@
    } else if idx == 3 {
        "kitty"@
    } else {
        "iterm2"@
    }
}

/// Name of image render mode `idx`.
pub fn image_protocol(idx: usize) -> (r: &'static str)
    requires
        idx < IMAGE_PROTOCOL_COUNT,
    ensures
        r@ == spec_image_protocol(idx as int),
{
    if idx == 0 {
        "auto"
    } else if idx == 1 {
        "halfblocks"
    } else if idx == 2 {
        "sixel"
    } else if idx == 3 {
        "kitty"
    } else {
        "iterm2"
    }
}

/// The position of `name` among the image render modes, 0 when it is not one of them.
pub open spec fn spec_image_protocol_index(name: Seq<char>) -> usize {
    if name == spec_image_protocol(0) {
        0
    } else if name == spec_image_protocol(1) {
        1
    } else if name == spec_image_protocol(2) {
        2
    } else if name == spec_image_protocol(3) {
        3
    } else if name == spec_image_protocol(4) {
        4
    } else {
        0
    }
}

/// Index of the image render mode called `name`; unknown names select the first mode.
pub fn image_protocol_index(name: &str) -> (r: usize)
    ensures
        r == spec_image_protocol_index(name@),
        r < IMAGE_PROTOCOL_COUNT,
{
    let mut i: usize = 0;
    while i < IMAGE_PROTOCOL_COUNT
        invariant
            i <= IMAGE_PROTOCOL_COUNT,
            forall|k: int| 0 <= k < i ==> name@ != spec_image_protocol(k),
        decreases IMAGE_PROTOCOL_COUNT - i,
    {
        if str_eq(image_protocol(i), name) {
            return i;
        }
        i += 1;
    }
    0
}

/// Semantic identity of a configuration dialog field, independent of the row index (which
/// shifts when discovered servers are listed).
#[derive(Debug, PartialEq, Eq, Structural, Clone, Copy)]
pub enum FieldKind {
    TextHost,
    TextPort,
    TextUser,
    TextPass,
    ToggleNerd,
    ToggleDiscover,
    TextMask,
    ScanButton,
    /// Index into the discovered servers.
    DiscoveredServer(usize),
    ToggleColors,
    SelectorProtocol,
    OkButton,
    CancelButton,
}

/// The kind of row `idx` when `n` discovered servers are listed: host, port, user,
/// password, auto-discover, mask, scan, then the servers, then nerd icons, colours,
/// image mode, OK; every later row is Cancel.
pub open spec fn spec_field_kind(n: int, idx: int) -> FieldKind {
    if idx == 0 {
        FieldKind::TextHost
    } else if idx == 1 {
        FieldKind::TextPort
    } else if idx == 2 {
        FieldKind::TextUser
    } else if idx == 3 {
        FieldKind::TextPass
    } else if idx == 4 {
        FieldKind::ToggleDiscover
    } else if idx == 5 {
        FieldKind::TextMask
    } else if idx == 6 {
        FieldKind::ScanButton
    } else if 7 <= idx <= 6 + n {
        FieldKind::DiscoveredServer((idx - 7) as usize)
    } else if idx == 7 + n {
        FieldKind::ToggleNerd
    } else if idx == 8 + n {
        FieldKind::ToggleColors
    } else if idx == 9 + n {
        FieldKind::SelectorProtocol
    } else if idx == 10 + n {
        FieldKind::OkButton
    } else {
        FieldKind::CancelButton
    }
}

/// The kind of field is one of the editable text fields.
pub open spec fn is_text_field(k: FieldKind) -> bool {
    k == FieldKind::TextHost || k == FieldKind::TextPort || k == FieldKind::TextUser || k
        == FieldKind::TextPass || k == FieldKind::TextMask
}

#[derive(Debug)]
pub struct ConfigModal {
    pub host: String,
    pub port: String,
    pub username: String,
    pub password: String,
    pub use_nerd_icons: bool,
    pub auto_discover: bool,
    pub broadcast_mask: String,
    pub disable_auto_colors: bool,
    /// Index into the image render modes.
    pub image_protocol_idx: usize,
    pub discovered_servers: Vec<String>,
    pub is_scanning: bool,
    pub scan_attempted: bool,
    pub selected_field: usize,
    pub editing: bool,
    pub cursor_pos: usize,
    pub error: Option<String>,
}

impl ConfigModal {
    /// The text of the field of kind `k`, for the text fields.
    pub open spec fn field_text(&self, k: FieldKind) -> Seq<char> {
        if k == FieldKind::TextHost {
            self.host@
        } else if k == FieldKind::TextPort {
            self.port@
        } else if k == FieldKind::TextUser {
            self.username@
        } else if k == FieldKind::TextPass {
            self.password@
        } else if k == FieldKind::TextMask {
            self.broadcast_mask@
        } else {
            Seq::empty()
        }
    }

    /// The kind of the selected field.
    pub open spec fn selected_kind(&self) -> FieldKind {
        spec_field_kind(self.discovered_servers@.len() as int, self.selected_field as int)
    }

    /// A fresh dialog holding the given settings, first field selected, not editing.
    #[allow(clippy::too_many_arguments)]
    pub fn new(
        host: &str,
        port: u16,
        username: Option<&str>,
        password: Option<&str>,
        use_nerd_icons: bool,
        auto_discover: bool,
        broadcast_mask: &str,
        disable_auto_colors: bool,
        image_protocol: &str,
    ) -> (r: Self)
        ensures
            r.host@ == host@,
            r.port@ == spec_decimal(port as nat),
            r.username@ == (match username {
                Some(u) => u@,
                None => Seq::<char>::empty(),
            }),
            r.password@ == (match password {
                Some(p) => p@,
                None => Seq::<char>::empty(),
            }),
            r.use_nerd_icons == use_nerd_icons,
            r.auto_discover == auto_discover,
            r.broadcast_mask@ == broadcast_mask@,
            r.disable_auto_colors == disable_auto_colors,
            r.image_protocol_idx == spec_image_protocol_index(image_protocol@),
            r.discovered_servers@.len() == 0,
            !r.is_scanning,
            !r.scan_attempted,
            r.selected_field == 0,
            !r.editing,
            r.cursor_pos == 0,
            r.error.is_none(),
    {
        ConfigModal {
            host: to_owned_string(host),
            port: u64_to_string(port as u64),
            username: match username {
                Some(u) => to_owned_string(u),
                None => String::new(),
            },
            password: match password {
                Some(p) => to_owned_string(p),
                None => String::new(),
            },
            use_nerd_icons,
            auto_discover,
            broadcast_mask: to_owned_string(broadcast_mask),
            disable_auto_colors,
            image_protocol_idx: image_protocol_index(image_protocol),
            discovered_servers: Vec::new(),
            is_scanning: false,
            scan_attempted: false,
            selected_field: 0,
            editing: false,
            cursor_pos: 0,
            error: None,
        }
    }

    /// Number of selectable rows: twelve fixed rows plus one per discovered server.
    pub fn field_count(&self) -> (r: usize)
        requires
            self.discovered_servers@.len() + 12 <= usize::MAX,
        ensures
            r == 12 + self.discovered_servers@.len(),
    {
        12 + self.discovered_servers.len()
    }

    /// The kind of row `idx`.
    pub fn field_kind(&self, idx: usize) -> (r: FieldKind)
        ensures
            r == spec_field_kind(self.discovered_servers@.len() as int, idx as int),
    {
        let n = self.discovered_servers.len();
        if idx == 0 {
            FieldKind::TextHost
        } else if idx == 1 {
            FieldKind::TextPort
        } else if idx == 2 {
            FieldKind::TextUser
        } else if idx == 3 {
            FieldKind::TextPass
        } else if idx == 4 {
            FieldKind::ToggleDiscover
        } else if idx == 5 {
            FieldKind::TextMask
        } else if idx == 6 {
            FieldKind::ScanButton
        } else if idx - 7 < n {
            FieldKind::DiscoveredServer(idx - 7)
        } else if idx - 7 == n {
            FieldKind::ToggleNerd
        } else if idx - 8 == n {
            FieldKind::ToggleColors
        } else if idx - 9 == n {
            FieldKind::SelectorProtocol
        } else if idx - 10 == n {
            FieldKind::OkButton
        } else {
            FieldKind::CancelButton
        }
    }

    /// Length in characters of the selected text field; 0 for other fields.
    pub fn current_field_char_count(&self) -> (r: usize)
        ensures
            r == self.field_text(self.selected_kind()).len(),
    {
        match self.field_kind(self.selected_field) {
            FieldKind::TextHost => char_count(self.host.as_str()),
            FieldKind::TextPort => char_count(self.port.as_str()),
            FieldKind::TextUser => char_count(self.username.as_str()),
            FieldKind::TextPass => char_count(self.password.as_str()),
            FieldKind::TextMask => char_count(self.broadcast_mask.as_str()),
            _ => 0,
        }
    }

    /// The selected field's text for editing in place; `None` when the selected row is not a
    /// text field. Only that field changes through the returned reference.
    pub fn current_field_str_mut(&mut self) -> (r: Option<&mut String>)
        ensures
            !is_text_field(old(self).selected_kind()) ==> (r is None && *final(self) == *old(self)),
            old(self).selected_kind() == FieldKind::TextHost ==> (r matches Some(s) && s@ == old(self).host@
                && *final(self) == (ConfigModal { host: *final(s), ..*old(self) })),
            old(self).selected_kind() == FieldKind::TextPort ==> (r matches Some(s) && s@ == old(self).port@
                && *final(self) == (ConfigModal { port: *final(s), ..*old(self) })),
            old(self).selected_kind() == FieldKind::TextUser ==> (r matches Some(s) && s@ == old(self).username@
                && *final(self) == (ConfigModal { username: *final(s), ..*old(self) })),
            old(self).selected_kind() == FieldKind::TextPass ==> (r matches Some(s) && s@ == old(self).password@
                && *final(self) == (ConfigModal { password: *final(s), ..*old(self) })),
            old(self).selected_kind() == FieldKind::TextMask ==> (r matches Some(s) && s@ == old(self).broadcast_mask@
                && *final(self) == (ConfigModal { broadcast_mask: *final(s), ..*old(self) })),
    {
        let kind = self.field_kind(self.selected_field);
        match kind {
            FieldKind::TextHost => Some(&mut self.host),
            FieldKind::TextPort => Some(&mut self.port),
            FieldKind::TextUser => Some(&mut self.username),
            FieldKind::TextPass => Some(&mut self.password),
            FieldKind::TextMask => Some(&mut self.broadcast_mask),
            _ => None,
        }
    }
}

/// One level of radio/app/favourites navigation history, so Back needs no refetch.
#[derive(Debug)]
pub struct RadioNav {
    /// Title of the level left behind.
    pub title: String,
    /// Items of that level.
    pub items: Vec<RadioItem>,
    /// Cursor position to restore.
    pub selected: usize,
}

#[derive(Debug)]
pub struct FolderNav {
    pub folder_id: Option<u32>,
    pub title: String,
    pub items: Vec<FolderItem>,
    pub selected: usize,
}

#[derive(Debug)]
pub struct ContextMenu {
    pub selected: usize,
    pub parent_add_label: Option<String>,
    pub parent_replace_label: Option<String>,
}

#[derive(Debug)]
pub struct SyncModal {
    pub player_id: String,
    pub player_name: String,
    pub other_players: Vec<Player>,
    pub checked: Vec<bool>,
    pub initial_synced_ids: Vec<String>,
    pub list_selected: usize,
    pub focus_buttons: bool,
    /// 0 = Synchronize, 1 = Cancel.
    pub selected_button: u8,
}

/// The options of a context menu with the given parent-queue labels.
pub open spec fn spec_menu_options(add: Option<String>, replace: Option<String>) -> Seq<Seq<char>> {
    let base = seq!["Play now"@, "Play next"@, "Add to end of queue"@, "Replace queue"@, "Add to favourites"@];
    let with_add = match add {
        Some(l) => base.push(l@),
        None => base,
    };
    let with_replace = match replace {
        Some(l) => with_add.push(l@),
        None => with_add,
    };
    with_replace.push("Cancel"@)
}

impl ContextMenu {
    /// A menu with the first option selected.
    pub fn new(parent_add_label: Option<String>, parent_replace_label: Option<String>) -> (r: Self)
        ensures
            r.selected == 0,
            r.parent_add_label == parent_add_label,
            r.parent_replace_label == parent_replace_label,
    {
        ContextMenu { selected: 0, parent_add_label, parent_replace_label }
    }

    pub open spec fn spec_option_count(&self) -> nat {
        6 + (if self.parent_add_label.is_some() { 1nat } else { 0nat }) + (if self.parent_replace_label.is_some() { 1nat } else { 0nat })
    }

    /// Six fixed options plus one per parent-queue label.
    pub fn option_count(&self) -> (r: usize)
        ensures
            r == self.spec_option_count(),
    {
        let a: usize = if self.parent_add_label.is_some() { 1 } else { 0 };
        let b: usize = if self.parent_replace_label.is_some() { 1 } else { 0 };
        6 + a + b
    }

    /// The option labels in display order.
    pub fn options(&self) -> (r: Vec<String>)
        ensures
            r@.map_values(|s: String| s@) == spec_menu_options(self.parent_add_label, self.parent_replace_label),
            r@.len() == self.spec_option_count(),
    {
        let mut opts: Vec<String> = Vec::new();
        opts.push(to_owned_string("Play now"));
        opts.push(to_owned_string("Play next"));
        opts.push(to_owned_string("Add to end of queue"));
        opts.push(to_owned_string("Replace queue"));
        opts.push(to_owned_string("Add to favourites"));
        if let Some(label) = &self.parent_add_label {
            opts.push(label.clone());
        }
        if let Some(label) = &self.parent_replace_label {
            opts.push(label.clone());
        }
        opts.push(to_owned_string("Cancel"));
        assert(opts@.map_values(|s: String| s@) =~= spec_menu_options(self.parent_add_label, self.parent_replace_label));
        opts
    }
}

/// The sidebar entries in display order.
pub open spec fn spec_sidebar_items() -> Seq<SidebarItem> {
    seq![
        SidebarItem::MyMusic,
        SidebarItem::Search,
        SidebarItem::Radio,
        SidebarItem::Apps,
        SidebarItem::Favourites,
        SidebarItem::Queue,
        SidebarItem::Players,
        SidebarItem::Help,
    ]
}

/// The full list a local filter narrows, kept aside while the filter is open.
#[derive(Debug)]
pub enum FilterBackup {
    Artists(Vec<Artist>),
    Albums(Vec<Album>),
    Tracks(Vec<Track>),
    Folder(Vec<FolderItem>),
    Playlists(Vec<Playlist>),
    Items(Vec<RadioItem>),
}

/// The local filter (`/`) of the main list: the view it was opened on, the typed query and
/// its cursor, whether the query is being edited, and the full list of that view.
#[derive(Debug)]
pub struct LocalFilter {
    pub owner: MainView,
    pub query: String,
    pub cursor: usize,
    pub editing: bool,
    pub backup: FilterBackup,
}

/// The whole state of the client's screens.
pub struct App {
    pub connection: ConnectionState,
    pub players: Vec<Player>,
    pub active_player: Option<String>,
    pub now_playing: Option<NowPlaying>,
    pub queue: Vec<Track>,
    // Library data
    pub artists: Vec<Artist>,
    pub album_artists: Vec<Artist>,
    pub albums: Vec<Album>,
    pub tracks: Vec<Track>,
    pub playlists: Vec<Playlist>,
    pub recent_artists: Vec<Artist>,
    pub popular_albums: Vec<Album>,
    /// Lazily resolved cover art per artist id: a key with `None` means "resolved, no art".
    pub artist_artwork: StrMap<Option<String>>,
    /// Lazily resolved cover art per folder, keyed by the folder id's decimal text.
    pub folder_artwork: StrMap<Option<String>>,
    // Radio data
    pub radio_items: Vec<RadioItem>,
    pub radio_nav_stack: Vec<RadioNav>,
    pub radio_title: String,
    // Apps data
    pub app_services: Vec<RadioItem>,
    pub app_items: Vec<RadioItem>,
    pub app_nav_stack: Vec<RadioNav>,
    pub app_title: String,
    // Favourites data
    pub fav_items: Vec<RadioItem>,
    pub fav_nav_stack: Vec<RadioNav>,
    pub fav_title: String,
    // Folder view data
    pub folder_items: Vec<FolderItem>,
    pub folder_nav_stack: Vec<FolderNav>,
    pub folder_title: String,
    /// Per-player volumes, updated by polling and by local changes.
    pub player_volumes: StrMap<u8>,
    /// Volumes saved before muting, restored on unmute.
    pub muted_volumes: StrMap<u8>,
    /// Players with a local volume change not yet confirmed, with the time (ms) it was made.
    pub volume_pending: StrMap<u64>,
    /// Per-player sync group members.
    pub player_sync_groups: StrMap<Vec<String>>,
    // UI state
    pub sidebar_selected: usize,
    pub main_selected: usize,
    pub saved_main_selected: Option<usize>,
    pub sidebar_items: Vec<SidebarItem>,
    pub main_view: MainView,
    pub previous_view: Option<MainView>,
    pub focus_sidebar: bool,
    pub players_focus_global: bool,
    pub global_volume_control: bool,
    pub status_message: Option<String>,
    pub status_message_gen: u64,
    pub config_modal: Option<ConfigModal>,
    pub context_menu: Option<ContextMenu>,
    pub sync_modal: Option<SyncModal>,
    pub confirm_clear_queue: bool,
    /// 0 = OK, 1 = Cancel.
    pub clear_queue_selected_button: u8,
    pub confirm_quit: bool,
    /// 0 = OK, 1 = Cancel.
    pub quit_selected_button: u8,
    pub should_quit: bool,
    /// The queue index awaiting delete confirmation.
    pub confirm_delete_queue_item: Option<usize>,
    pub delete_queue_selected_button: u8,
    /// Height in rows of the Now Playing panel.
    pub status_height: u16,
    /// Width in columns of the album-art cell of the Now Playing panel.
    pub art_col_w: u16,
    // Search state
    pub search_query: String,
    pub search_cursor_pos: usize,
    pub search_results: Vec<SearchResultItem>,
    pub search_input_active: bool,
    pub search_scope: SearchScope,
    pub radio_services: Vec<RadioItem>,
    // In-app search state
    pub app_search_query: String,
    pub app_search_cursor_pos: usize,
    pub app_search_results: Vec<RadioItem>,
    pub app_search_input_active: bool,
    pub use_nerd_icons: bool,
    pub full_art_mode: bool,
    pub accent_color: Option<[u8; 3]>,
    pub disable_auto_colors: bool,
    /// A navigation fetch is in flight.
    pub is_loading: bool,
    pub help_scroll: u16,
    /// Visible line count of the Help panel as last drawn.
    pub help_visible_lines: u16,
    /// Pixel size of the current album art.
    pub art_image_size: Option<(u32, u32)>,
    /// Terminal font size in pixels (width, height).
    pub font_size: (u16, u16),
    pub local_filter: Option<LocalFilter>,
}

/// The fixed label of a sidebar entry.
pub open spec fn spec_sidebar_label(item: SidebarItem) -> Seq<char> {
    match item {
        SidebarItem::MyMusic => " My Music"@,
        SidebarItem::Search => " Search"@,
        SidebarItem::Radio => " Radio"@,
        SidebarItem::Apps => " Apps"@,
        SidebarItem::Favourites => " Favourites"@,
        SidebarItem::Queue => " Queue"@,
        SidebarItem::Players => " Players"@,
        SidebarItem::Help => " Help"@,
    }
}

/// The state at start-up, field by field: reconnecting, `default_player` active, My Music
/// shown with the sidebar focused, no lists, no history, no dialogs, no pending volumes, the
/// default titles and sizes, and every setting off.
pub open spec fn is_initial(r: App, default_player: Option<String>) -> bool {
    &&& r.connection == ConnectionState::Reconnecting
    &&& r.players@.len() == 0
    &&& r.active_player == default_player
    &&& r.now_playing.is_none()
    &&& r.queue@.len() == 0
    &&& r.artists@.len() == 0
    &&& r.album_artists@.len() == 0
    &&& r.albums@.len() == 0
    &&& r.tracks@.len() == 0
    &&& r.playlists@.len() == 0
    &&& r.recent_artists@.len() == 0
    &&& r.popular_albums@.len() == 0
    &&& r.artist_artwork@ == Map::<Seq<char>, Option<String>>::empty()
    &&& r.folder_artwork@ == Map::<Seq<char>, Option<String>>::empty()
    &&& r.radio_items@.len() == 0
    &&& r.radio_nav_stack@.len() == 0
    &&& r.radio_title@ == "Radio"@
    &&& r.app_services@.len() == 0
    &&& r.app_items@.len() == 0
    &&& r.app_nav_stack@.len() == 0
    &&& r.app_title@ == "Apps"@
    &&& r.fav_items@.len() == 0
    &&& r.fav_nav_stack@.len() == 0
    &&& r.fav_title@ == "Favourites"@
    &&& r.folder_items@.len() == 0
    &&& r.folder_nav_stack@.len() == 0
    &&& r.folder_title@ == "Folders"@
    &&& r.player_volumes@ == Map::<Seq<char>, u8>::empty()
    &&& r.muted_volumes@ == Map::<Seq<char>, u8>::empty()
    &&& r.volume_pending@ == Map::<Seq<char>, u64>::empty()
    &&& r.player_sync_groups@ == Map::<Seq<char>, Vec<String>>::empty()
    &&& r.sidebar_selected == 0
    &&& r.main_selected == 0
    &&& r.saved_main_selected.is_none()
    &&& r.sidebar_items@ == spec_sidebar_items()
    &&& r.main_view == MainView::MyMusic
    &&& r.previous_view.is_none()
    &&& r.focus_sidebar
    &&& !r.players_focus_global
    &&& !r.global_volume_control
    &&& r.status_message.is_none()
    &&& r.status_message_gen == 0
    &&& r.config_modal.is_none()
    &&& r.context_menu.is_none()
    &&& r.sync_modal.is_none()
    &&& !r.confirm_clear_queue
    &&& r.clear_queue_selected_button == 0
    &&& !r.confirm_quit
    &&& r.quit_selected_button == 1
    &&& !r.should_quit
    &&& r.confirm_delete_queue_item.is_none()
    &&& r.delete_queue_selected_button == 0
    &&& r.status_height == 11
    &&& r.art_col_w == 16
    &&& r.search_query@.len() == 0
    &&& r.search_cursor_pos == 0
    &&& r.search_results@.len() == 0
    &&& !r.search_input_active
    &&& r.search_scope == SearchScope::MyMusic
    &&& r.radio_services@.len() == 0
    &&& r.app_search_query@.len() == 0
    &&& r.app_search_cursor_pos == 0
    &&& r.app_search_results@.len() == 0
    &&& !r.app_search_input_active
    &&& !r.use_nerd_icons
    &&& !r.full_art_mode
    &&& r.accent_color.is_none()
    &&& !r.disable_auto_colors
    &&& !r.is_loading
    &&& r.help_scroll == 0
    &&& r.help_visible_lines == u16::MAX
    &&& r.art_image_size.is_none()
    &&& r.font_size == (8u16, 16u16)
    &&& r.local_filter.is_none()
}

impl App {
    /// The state at start-up: reconnecting, `default_player` active, My Music shown with the
    /// sidebar focused, everything else empty.
    pub fn new(default_player: Option<String>) -> (r: Self)
        ensures
            is_initial(r, default_player),
    {
        let mut sidebar_items: Vec<SidebarItem> = Vec::new();
        sidebar_items.push(SidebarItem::MyMusic);
        sidebar_items.push(SidebarItem::Search);
        sidebar_items.push(SidebarItem::Radio);
        sidebar_items.push(SidebarItem::Apps);
        sidebar_items.push(SidebarItem::Favourites);
        sidebar_items.push(SidebarItem::Queue);
        sidebar_items.push(SidebarItem::Players);
        sidebar_items.push(SidebarItem::Help);
        assert(sidebar_items@ =~= spec_sidebar_items());
        App {
            connection: ConnectionState::Reconnecting,
            players: Vec::new(),
            active_player: default_player,
            now_playing: None,
            queue: Vec::new(),
            artists: Vec::new(),
            album_artists: Vec::new(),
            albums: Vec::new(),
            tracks: Vec::new(),
            playlists: Vec::new(),
            recent_artists: Vec::new(),
            popular_albums: Vec::new(),
            artist_artwork: StrMap::new(),
            folder_artwork: StrMap::new(),
            radio_items: Vec::new(),
            radio_nav_stack: Vec::new(),
            radio_title: to_owned_string("Radio"),
            app_services: Vec::new(),
            app_items: Vec::new(),
            app_nav_stack: Vec::new(),
            app_title: to_owned_string("Apps"),
            fav_items: Vec::new(),
            fav_nav_stack: Vec::new(),
            fav_title: to_owned_string("Favourites"),
            folder_items: Vec::new(),
            folder_nav_stack: Vec::new(),
            folder_title: to_owned_string("Folders"),
            player_volumes: StrMap::new(),
            muted_volumes: StrMap::new(),
            volume_pending: StrMap::new(),
            player_sync_groups: StrMap::new(),
            sidebar_selected: 0,
            main_selected: 0,
            saved_main_selected: None,
            sidebar_items,
            main_view: MainView::MyMusic,
            previous_view: None,
            focus_sidebar: true,
            players_focus_global: false,
            global_volume_control: false,
            status_message: None,
            status_message_gen: 0,
            config_modal: None,
            context_menu: None,
            sync_modal: None,
            confirm_clear_queue: false,
            clear_queue_selected_button: 0,
            confirm_quit: false,
            quit_selected_button: 1,
            should_quit: false,
            confirm_delete_queue_item: None,
            delete_queue_selected_button: 0,
            status_height: 11,
            art_col_w: 16,
            search_query: String::new(),
            search_cursor_pos: 0,
            search_results: Vec::new(),
            search_input_active: false,
            search_scope: SearchScope::MyMusic,
            radio_services: Vec::new(),
            app_search_query: String::new(),
            app_search_cursor_pos: 0,
            app_search_results: Vec::new(),
            app_search_input_active: false,
            use_nerd_icons: false,
            full_art_mode: false,
            accent_color: None,
            disable_auto_colors: false,
            is_loading: false,
            help_scroll: 0,
            help_visible_lines: u16::MAX,
            art_image_size: None,
            font_size: (8, 16),
            local_filter: None,
        }
    }

    /// The label shown for a sidebar entry.
    pub fn sidebar_label(&self, item: &SidebarItem) -> (r: &'static str)
        ensures
            r@ == spec_sidebar_label(*item),
    {
        match item {
            SidebarItem::MyMusic => " My Music",
            SidebarItem::Search => " Search",
            SidebarItem::Radio => " Radio",
            SidebarItem::Apps => " Apps",
            SidebarItem::Favourites => " Favourites",
            SidebarItem::Queue => " Queue",
            SidebarItem::Players => " Players",
            SidebarItem::Help => " Help",
        }
    }

    /// A copy of the active player id.
    pub fn active_pid(&self) -> (r: Option<String>)
        ensures
            r == self.active_player,
    {
        clone_opt_string(&self.active_player)
    }

    pub open spec fn spec_is_playing(&self) -> bool {
        self.now_playing.is_some() && self.now_playing.unwrap().is_playing
    }

    /// The active player reports playback.
    pub fn is_playing(&self) -> (r: bool)
        ensures
            r == self.spec_is_playing(),
    {
        match &self.now_playing {
            Some(n) => n.is_playing,
            None => false,
        }
    }

    pub open spec fn spec_effective_accent(&self) -> Option<[u8; 3]> {
        if self.disable_auto_colors {
            None
        } else {
            self.accent_color
        }
    }

    /// The accent colour in use: none when automatic colours are disabled.
    pub fn effective_accent(&self) -> (r: Option<[u8; 3]>)
        ensures
            r == self.spec_effective_accent(),
    {
        if self.disable_auto_colors {
            None
        } else {
            self.accent_color
        }
    }

    /// The ids of all known players, in list order.
    pub fn player_ids(&self) -> (r: Vec<String>)
        ensures
            r@.len() == self.players@.len(),
            forall|i: int| 0 <= i < r@.len() ==> #[trigger] r@[i] == self.players@[i].playerid,
    {
        let mut ids: Vec<String> = Vec::new();
        let mut i: usize = 0;
        while i < self.players.len()
            invariant
                i <= self.players@.len(),
                ids@.len() == i,
                forall|k: int| 0 <= k < i ==> #[trigger] ids@[k] == self.players@[k].playerid,
            decreases self.players@.len() - i,
        {
            ids.push(self.players[i].playerid.clone());
            i += 1;
        }
        ids
    }
}

} // verus!
