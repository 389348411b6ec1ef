//! The client loop's own decisions: the start-up layout, which covers to fetch, which list
//! rows to prepare pictures for, and what is written back to the settings at the end.
use vstd::prelude::*;
use crate::api::opt_string_view;
use crate::app::{App, is_initial};
use crate::config::Config;
use crate::text::{str_eq, u64_to_string, spec_decimal};
use crate::utils::{
    art_col_width, artist_id_at, folder_id_at, main_list_len, spec_art_col_width, spec_artist_id_at, spec_folder_id_at,
    spec_main_list_len,
};

verus! {

/// Width, in columns, of the cover art cell that sizes the Now Playing panel.
pub const ART_CELL_COLS: u16 = 18;

/// The Now Playing panel at start-up for a font of `font` (width, height) pixels: tall
/// enough for a square picture `ART_CELL_COLS` columns wide, that is
/// ceil(18 * width / height) rows; its art column as wide as the rows inside the borders are
/// tall (at least 4).
pub open spec fn spec_startup_layout(font: (u16, u16)) -> (u16, u16) {
    let rows = (ART_CELL_COLS * font.0 + font.1 - 1) / (font.1 as int);
    let inner: int = if rows >= 2 { rows - 2 } else { 0 };
    let w: int = inner * font.1 / (font.0 as int);
    (rows as u16, if w > 4 { w as u16 } else { 4 })
}

/// The start-up Now Playing panel: (height, art column width).
pub fn startup_layout(font: (u16, u16)) -> (r: (u16, u16))
    requires
        font.0 > 0,
        font.1 > 0,
        ART_CELL_COLS * font.0 <= u16::MAX,
    ensures
        r == spec_startup_layout(font),
{
    let num: u32 = ART_CELL_COLS as u32 * font.0 as u32 + font.1 as u32 - 1;
    let rows: u32 = num / font.1 as u32;
    proof {
        assert(rows <= num) by (nonlinear_arith)
            requires
                rows as int == (num as int) / (font.1 as int),
                font.1 >= 1,
                num >= 0;
        assert(rows <= u16::MAX) by (nonlinear_arith)
            requires
                rows as int == (num as int) / (font.1 as int),
                num as int == ART_CELL_COLS * font.0 + font.1 - 1,
                ART_CELL_COLS * font.0 <= u16::MAX,
                font.1 >= 1,
        {
            assert(num < (u16::MAX + 1) * font.1);
        }
    }
    let inner: u32 = if rows >= 2 { rows - 2 } else { 0 };
    assert(inner * font.1 as u32 <= 65535 * 65535) by (nonlinear_arith)
        requires
            inner <= 65535,
            font.1 <= 65535;
    let w: u32 = inner * font.1 as u32 / font.0 as u32;
    proof {
        assert(w <= inner * font.1) by (nonlinear_arith)
            requires
                w as int == (inner * font.1) as int / (font.0 as int),
                font.0 >= 1,
                inner * font.1 >= 0;
    }
    (rows as u16, if w > 4 { w as u16 } else { 4 })
}

/// The state at start-up: the initial state (see `is_initial`) with the saved settings'
/// default player, icons, volume mode, full-art mode (which takes the focus from the sidebar)
/// and colours, and the panel sized for the font; every other field as it starts.
pub open spec fn started(app: App, cfg: Config, font: (u16, u16)) -> bool {
    let l = spec_startup_layout(font);
    &&& is_initial(
        (App {
            use_nerd_icons: false,
            global_volume_control: false,
            full_art_mode: false,
            focus_sidebar: true,
            disable_auto_colors: false,
            status_height: 11,
            art_col_w: 16,
            font_size: (8u16, 16u16),
            ..app
        }),
        cfg.default_player,
    )
    &&& app.use_nerd_icons == cfg.use_nerd_icons
    &&& app.global_volume_control == cfg.global_volume_control
    &&& app.full_art_mode == cfg.full_art_mode
    &&& app.focus_sidebar == !cfg.full_art_mode
    &&& app.disable_auto_colors == cfg.disable_auto_colors
    &&& app.active_player == cfg.default_player
    &&& app.status_height == l.0
    &&& app.art_col_w == l.1
    &&& app.font_size == font
}

/// The state the client starts in.
pub fn startup_app(cfg: &Config, font: (u16, u16)) -> (r: App)
    requires
        font.0 > 0,
        font.1 > 0,
        ART_CELL_COLS * font.0 <= u16::MAX,
    ensures
        started(r, *cfg, font),
{
    let mut app = App::new(crate::api::clone_opt_string(&cfg.default_player));
    app.use_nerd_icons = cfg.use_nerd_icons;
    app.global_volume_control = cfg.global_volume_control;
    app.full_art_mode = cfg.full_art_mode;
    if app.full_art_mode {
        app.focus_sidebar = false;
    }
    app.disable_auto_colors = cfg.disable_auto_colors;
    let (h, w) = startup_layout(font);
    app.status_height = h;
    app.art_col_w = w;
    app.font_size = font;
    app
}

/// The main-list rows `[start, end)` whose pictures are prepared: the rows visible in a
/// terminal `term_h` rows tall (two rows per item below 13 rows of other panels, at least
/// one) from `offset`, and five more, within the list.
pub open spec fn spec_thumb_range(term_h: u16, offset: usize, app: App) -> (int, int) {
    let inner: int = if term_h >= 13 { term_h - 13 } else { 0 };
    let visible: int = if inner / 2 > 1 { inner / 2 } else { 1 };
    let end = offset + visible + 5;
    let len = spec_main_list_len(app) as int;
    (offset as int, if end < len { end } else { len })
}

/// The main-list rows whose pictures are prepared.
pub fn thumb_range(term_h: u16, offset: usize, app: &App) -> (r: (usize, usize))
    requires
        offset + u16::MAX <= usize::MAX,
    ensures
        (r.0 as int, r.1 as int) == spec_thumb_range(term_h, offset, *app),
{
    let inner: u16 = if term_h >= 13 { term_h - 13 } else { 0 };
    let half: usize = (inner / 2) as usize;
    let visible: usize = if half > 1 { half } else { 1 };
    let end = offset + visible + 5;
    let len = main_list_len(app);
    (offset, if end < len { end } else { len })
}

/// The first list item shown when item `selected` must be visible in a window of `visible`
/// rows that started at `offset`: unchanged while the selection is in view, else scrolled
/// just far enough.
pub open spec fn spec_scroll_offset(offset: usize, selected: usize, visible: usize) -> usize {
    if selected < offset {
        selected
    } else if visible > 0 && selected >= offset + visible {
        (selected + 1 - visible) as usize
    } else {
        offset
    }
}

/// The first list item shown after the selection moved to `selected`.
pub fn scroll_offset(offset: usize, selected: usize, visible: usize) -> (r: usize)
    ensures
        r == spec_scroll_offset(offset, selected, visible),
        visible > 0 ==> r <= selected < r + visible,
{
    if selected < offset {
        selected
    } else if visible > 0 && selected - offset >= visible {
        selected - visible + 1
    } else {
        offset
    }
}

/// The cover shown for the playing track changed from `last`: the new one is remembered,
/// the picture size forgotten when there is no cover now, and the new cover fetched.
pub open spec fn artwork_update_post(old: App, new: App, last: Option<Seq<char>>, last_new: Option<Seq<char>>, r: (bool, Option<Seq<char>>)) -> bool {
    let cur = match old.now_playing {
        Some(np) => opt_string_view(np.artwork_url),
        None => None,
    };
    if cur != last {
        &&& r.0 && r.1 == cur && last_new == cur
        &&& new == (if cur is None { App { art_image_size: None, ..old } } else { old })
    } else {
        !r.0 && r.1 is None && last_new == last && new == old
    }
}

fn opt_str_eq(a: &Option<String>, b: &Option<String>) -> (r: bool)
    ensures
        r == (opt_string_view(*a) == opt_string_view(*b)),
{
    match (a, b) {
        (Some(x), Some(y)) => str_eq(x.as_str(), y.as_str()),
        (None, None) => true,
        _ => false,
    }
}

/// A cover fetch failed: when it was the cover being followed, it is forgotten, so that the
/// next `artwork_update` asks for it again; otherwise nothing changes.
pub fn artwork_fetch_failed(last: &mut Option<String>, url: &str)
    ensures
        opt_string_view(*final(last)) == (if opt_string_view(*old(last)) == Some(url@) {
            None
        } else {
            opt_string_view(*old(last))
        }),
{
    let same = match last {
        Some(l) => str_eq(l.as_str(), url),
        None => false,
    };
    if same {
        *last = None;
    }
}

/// Follows the playing track's cover (see `artwork_update_post`): true when it changed, with
/// the cover to fetch if there is one.
pub fn artwork_update(app: &mut App, last: &mut Option<String>) -> (r: (bool, Option<String>))
    ensures
        artwork_update_post(*old(app), *final(app), opt_string_view(*old(last)), opt_string_view(*final(last)),
            (r.0, opt_string_view(r.1))),
{
    let cur: Option<String> = match &app.now_playing {
        Some(np) => crate::api::clone_opt_string(&np.artwork_url),
        None => None,
    };
    if opt_str_eq(&cur, last) {
        return (false, None);
    }
    *last = crate::api::clone_opt_string(&cur);
    if cur.is_none() {
        app.art_image_size = None;
    }
    (true, cur)
}

/// The texts of a list of strings.
pub open spec fn texts(v: Seq<String>) -> Seq<Seq<char>> {
    v.map_values(|s: String| s@)
}

fn contains_text(v: &Vec<String>, s: &str) -> (r: bool)
    ensures
        r == texts(v@).contains(s@),
{
    let mut i: usize = 0;
    while i < v.len()
        invariant
            i <= v@.len(),
            forall|k: int| 0 <= k < i ==> v@[k]@ != s@,
        decreases v@.len() - i,
    {
        if str_eq(v[i].as_str(), s) {
            assert(texts(v@)[i as int] == s@);
            return true;
        }
        i += 1;
    }
    assert(!texts(v@).contains(s@)) by {
        assert forall|k: int| 0 <= k < texts(v@).len() implies texts(v@)[k] != s@ by {
            assert(texts(v@)[k] == v@[k]@);
        }
    }
    false
}

/// The artist of row `idx` needs its cover looked up: it lists an artist whose cover is not
/// known yet nor being looked up; it is then marked as being looked up.
pub open spec fn artist_art_request_post(app: App, idx: int, pending: Seq<Seq<char>>, pending_new: Seq<Seq<char>>, r: Option<Seq<char>>) -> bool {
    match spec_artist_id_at(app, idx) {
        Some(id) => if !app.artist_artwork@.contains_key(id) && !pending.contains(id) {
            r == Some(id) && pending_new == pending.push(id)
        } else {
            r is None && pending_new == pending
        },
        None => r is None && pending_new == pending,
    }
}

/// The artist whose cover to look up for row `idx`, if any (see `artist_art_request_post`).
pub fn artist_art_request(app: &App, idx: usize, pending: &mut Vec<String>) -> (r: Option<String>)
    ensures
        artist_art_request_post(*app, idx as int, texts(old(pending)@), texts(final(pending)@), opt_string_view(r)),
{
    match artist_id_at(app, idx) {
        Some(id) => {
            if !app.artist_artwork.contains_key(id.as_str()) && !contains_text(pending, id.as_str()) {
                pending.push(id.clone());
                assert(texts(pending@) =~= texts(old(pending)@).push(id@));
                Some(id)
            } else {
                None
            }
        },
        None => None,
    }
}

fn contains_u32(v: &Vec<u32>, x: u32) -> (r: bool)
    ensures
        r == v@.contains(x),
{
    let mut i: usize = 0;
    while i < v.len()
        invariant
            i <= v@.len(),
            forall|k: int| 0 <= k < i ==> v@[k] != x,
        decreases v@.len() - i,
    {
        if v[i] == x {
            return true;
        }
        i += 1;
    }
    false
}

/// The folder of row `idx` needs its cover looked up: it is a directory whose cover is not
/// known yet (covers are kept under the folder id's decimal text) nor being looked up; it is
/// then marked as being looked up.
pub open spec fn folder_art_request_post(app: App, idx: int, pending: Seq<u32>, pending_new: Seq<u32>, r: Option<u32>) -> bool {
    match spec_folder_id_at(app, idx) {
        Some(id) => if !app.folder_artwork@.contains_key(spec_decimal(id as nat)) && !pending.contains(id) {
            r == Some(id) && pending_new == pending.push(id)
        } else {
            r is None && pending_new == pending
        },
        None => r is None && pending_new == pending,
    }
}

/// The folder whose cover to look up for row `idx`, if any (see `folder_art_request_post`).
pub fn folder_art_request(app: &App, idx: usize, pending: &mut Vec<u32>) -> (r: Option<u32>)
    ensures
        folder_art_request_post(*app, idx as int, old(pending)@, final(pending)@, r),
{
    match folder_id_at(app, idx) {
        Some(id) => {
            let key = u64_to_string(id as u64);
            if !app.folder_artwork.contains_key(key.as_str()) && !contains_u32(pending, id) {
                pending.push(id);
                Some(id)
            } else {
                None
            }
        },
        None => None,
    }
}

/// At exit the active player becomes the saved default when it differs; true when the
/// settings changed and must be written.
pub fn remember_player(app: &App, cfg: &mut Config) -> (r: bool)
    ensures
        r == (opt_string_view(app.active_player) != opt_string_view(old(cfg).default_player)),
        r ==> *final(cfg) == (Config { default_player: final(cfg).default_player, ..*old(cfg) })
            && opt_string_view(final(cfg).default_player) == opt_string_view(app.active_player),
        !r ==> *final(cfg) == *old(cfg),
{
    if opt_str_eq(&app.active_player, &cfg.default_player) {
        false
    } else {
        cfg.default_player = crate::api::clone_opt_string(&app.active_player);
        true
    }
}

} // verus!
