//! The settings dialog: moving between its rows, editing its text fields, toggles, the
//! server scan, and checking and saving the settings.
use vstd::prelude::*;
use vstd::string::*;
use crate::app::{App, ConfigModal, ConnectionState, FieldKind, IMAGE_PROTOCOL_COUNT, is_text_field, spec_field_kind, spec_image_protocol, image_protocol};
use crate::config::{Config, parse_u16, spec_parse_u16, spec_trim, trim_owned};
use crate::editing::{insert_at, input_backspace, input_delete, input_insert};
use crate::effects::{Effect, EffectV, Effects, effects_v, no_effects, one_effect};
use crate::events::{KeyCode, KeyInput};
use crate::handlers::{is_down_key, is_up_key};
use crate::text::{concat2, to_owned_string};

verus! {

/// `m2` is `m` with the text of field `k` replaced by `s` (no change for other fields).
pub open spec fn field_set(m: ConfigModal, m2: ConfigModal, k: FieldKind, s: Seq<char>) -> bool {
    if k == FieldKind::TextHost {
        m2 == (ConfigModal { host: m2.host, ..m }) && m2.host@ == s
    } else if k == FieldKind::TextPort {
        m2 == (ConfigModal { port: m2.port, ..m }) && m2.port@ == s
    } else if k == FieldKind::TextUser {
        m2 == (ConfigModal { username: m2.username, ..m }) && m2.username@ == s
    } else if k == FieldKind::TextPass {
        m2 == (ConfigModal { password: m2.password, ..m }) && m2.password@ == s
    } else if k == FieldKind::TextMask {
        m2 == (ConfigModal { broadcast_mask: m2.broadcast_mask, ..m }) && m2.broadcast_mask@ == s
    } else {
        m2 == m
    }
}

/// A text-field edit as (new text, or `None` to keep it; new cursor; still editing):
/// Esc, Enter and Tab end editing; Left/Right/Home/End move the cursor within the text; a
/// character is inserted at the cursor (only digits in the port field); Backspace and
/// Delete remove the character before or under the cursor.
#[verifier::opaque]
pub open spec fn config_edit_step(m: ConfigModal, key: KeyCode) -> (Option<Seq<char>>, usize, bool) {
    let k = m.selected_kind();
    let t = m.field_text(k);
    let cp = m.cursor_pos;
    let e = m.editing;
    if key == KeyCode::Esc || key == KeyCode::Enter || key == KeyCode::Tab {
        (None, cp, false)
    } else if key == KeyCode::Left {
        (None, if cp > 0 { (cp - 1) as usize } else { cp }, e)
    } else if key == KeyCode::Right {
        (None, if cp < t.len() { (cp + 1) as usize } else { cp }, e)
    } else if key == KeyCode::Home {
        (None, 0, e)
    } else if key == KeyCode::End {
        (None, t.len() as usize, e)
    } else {
        match key {
            KeyCode::Char(c) => if k == FieldKind::TextPort && !('0' <= c && c <= '9') {
                (None, cp, e)
            } else {
                (if is_text_field(k) { Some(insert_at(t, cp as nat, c)) } else { None }, (cp + 1) as usize, e)
            },
            KeyCode::Backspace => if cp > 0 {
                (if is_text_field(k) { Some(t.remove(cp - 1)) } else { None }, (cp - 1) as usize, e)
            } else {
                (None, cp, e)
            },
            KeyCode::Delete => (if is_text_field(k) && cp < t.len() { Some(t.remove(cp as int)) } else { None }, cp, e),
            _ => (None, cp, e),
        }
    }
}

/// `m2` is `m` after edit step `t`.
pub open spec fn modal_edited(m: ConfigModal, m2: ConfigModal, t: (Option<Seq<char>>, usize, bool)) -> bool {
    let mid = ConfigModal { cursor_pos: t.1, editing: t.2, ..m };
    match t.0 {
        Some(s) => field_set(mid, m2, m.selected_kind(), s),
        None => m2 == mid,
    }
}

/// The edit keys the dialog's cursor allows: insertion and Backspace stay within the text.
pub open spec fn config_edit_ok(m: ConfigModal, key: KeyCode) -> bool {
    let t = m.field_text(m.selected_kind());
    &&& (key matches KeyCode::Char(c) && !(m.selected_kind() == FieldKind::TextPort && !('0' <= c && c <= '9')))
        ==> m.cursor_pos < usize::MAX && (is_text_field(m.selected_kind()) ==> m.cursor_pos <= t.len())
    &&& key == KeyCode::Backspace && m.cursor_pos > 0 && is_text_field(m.selected_kind()) ==> m.cursor_pos <= t.len()
}

fn current_field_text(m: &ConfigModal) -> (r: String)
    ensures
        r@ == m.field_text(m.selected_kind()),
{
    match m.field_kind(m.selected_field) {
        FieldKind::TextHost => m.host.clone(),
        FieldKind::TextPort => m.port.clone(),
        FieldKind::TextUser => m.username.clone(),
        FieldKind::TextPass => m.password.clone(),
        FieldKind::TextMask => m.broadcast_mask.clone(),
        _ => String::new(),
    }
}

fn set_current_field(m: &mut ConfigModal, s: String)
    ensures
        field_set(*old(m), *final(m), old(m).selected_kind(), s@),
{
    match m.field_kind(m.selected_field) {
        FieldKind::TextHost => {
            m.host = s;
        },
        FieldKind::TextPort => {
            m.port = s;
        },
        FieldKind::TextUser => {
            m.username = s;
        },
        FieldKind::TextPass => {
            m.password = s;
        },
        FieldKind::TextMask => {
            m.broadcast_mask = s;
        },
        _ => {},
    }
}

fn set_cursor_editing(m: &mut ConfigModal, cursor: usize, editing: bool)
    ensures
        *final(m) == (ConfigModal { cursor_pos: cursor, editing, ..*old(m) }),
{
    m.cursor_pos = cursor;
    m.editing = editing;
}

fn is_text_kind(k: FieldKind) -> (r: bool)
    ensures
        r == is_text_field(k),
{
    k == FieldKind::TextHost || k == FieldKind::TextPort || k == FieldKind::TextUser || k == FieldKind::TextPass
        || k == FieldKind::TextMask
}

fn edit_field(m: &mut ConfigModal, key: KeyCode)
    requires
        config_edit_ok(*old(m), key),
    ensures
        modal_edited(*old(m), *final(m), config_edit_step(*old(m), key)),
{
    proof {
        reveal(config_edit_step);
    }
    let cp = m.cursor_pos;
    let e = m.editing;
    let kind = m.field_kind(m.selected_field);
    let text = current_field_text(m);
    let len = text.unicode_len();
    if key == KeyCode::Esc || key == KeyCode::Enter || key == KeyCode::Tab {
        set_cursor_editing(m, cp, false);
    } else if key == KeyCode::Left {
        set_cursor_editing(m, if cp > 0 { cp - 1 } else { cp }, e);
    } else if key == KeyCode::Right {
        set_cursor_editing(m, if cp < len { cp + 1 } else { cp }, e);
    } else if key == KeyCode::Home {
        set_cursor_editing(m, 0, e);
    } else if key == KeyCode::End {
        set_cursor_editing(m, len, e);
    } else {
        match key {
            KeyCode::Char(c) => {
                if kind == FieldKind::TextPort && !('0' <= c && c <= '9') {
                    set_cursor_editing(m, cp, e);
                } else {
                    set_cursor_editing(m, cp + 1, e);
                    if is_text_kind(kind) {
                        let mut t = text;
                        let mut cur = cp;
                        input_insert(&mut t, &mut cur, c);
                        set_current_field(m, t);
                    }
                }
            },
            KeyCode::Backspace => {
                if cp > 0 {
                    set_cursor_editing(m, cp - 1, e);
                    if is_text_kind(kind) {
                        let mut t = text;
                        let mut cur = cp;
                        input_backspace(&mut t, &mut cur);
                        set_current_field(m, t);
                    }
                } else {
                    set_cursor_editing(m, cp, e);
                }
            },
            KeyCode::Delete => {
                set_cursor_editing(m, cp, e);
                if is_text_kind(kind) && cp < len {
                    let mut t = text;
                    input_delete(&mut t, cp);
                    set_current_field(m, t);
                }
            },
            _ => {
                set_cursor_editing(m, cp, e);
            },
        }
    }
}

/// A row move or value change while not editing, as (row, image mode, nerd icons,
/// auto-discover, colours off): Up/`k` and Down/`j` move between the rows; Tab moves down
/// and wraps to the first row; Left and Right move up and down, except on the image-mode row
/// where they cycle through the modes; Space flips a toggle or cycles the image mode.
#[verifier::opaque]
pub open spec fn config_nav_step(m: ConfigModal, key: KeyCode) -> (usize, usize, bool, bool, bool) {
    let count: int = 12 + m.discovered_servers@.len() as int;
    let sel = m.selected_field;
    let k = m.selected_kind();
    let up = if sel > 0 { (sel - 1) as usize } else { sel };
    let down = if sel < count - 1 { (sel + 1) as usize } else { sel };
    let next_mode = ((m.image_protocol_idx + 1) % IMAGE_PROTOCOL_COUNT as int) as usize;
    let prev_mode = if m.image_protocol_idx == 0 { (IMAGE_PROTOCOL_COUNT - 1) as usize } else { (m.image_protocol_idx - 1) as usize };
    let same = (sel, m.image_protocol_idx, m.use_nerd_icons, m.auto_discover, m.disable_auto_colors);
    if is_up_key(key) {
        (up, same.1, same.2, same.3, same.4)
    } else if is_down_key(key) {
        (down, same.1, same.2, same.3, same.4)
    } else if key == KeyCode::Tab {
        (((sel + 1) % count) as usize, same.1, same.2, same.3, same.4)
    } else if key == KeyCode::Left {
        if k == FieldKind::SelectorProtocol { (sel, prev_mode, same.2, same.3, same.4) } else { (up, same.1, same.2, same.3, same.4) }
    } else if key == KeyCode::Right {
        if k == FieldKind::SelectorProtocol { (sel, next_mode, same.2, same.3, same.4) } else { (down, same.1, same.2, same.3, same.4) }
    } else if key == KeyCode::Char(' ') {
        if k == FieldKind::ToggleNerd {
            (sel, same.1, !m.use_nerd_icons, same.3, same.4)
        } else if k == FieldKind::ToggleDiscover {
            (sel, same.1, same.2, !m.auto_discover, same.4)
        } else if k == FieldKind::ToggleColors {
            (sel, same.1, same.2, same.3, !m.disable_auto_colors)
        } else if k == FieldKind::SelectorProtocol {
            (sel, next_mode, same.2, same.3, same.4)
        } else {
            same
        }
    } else {
        same
    }
}

/// `m2` is `m` after navigation step `t`.
pub open spec fn modal_moved(m: ConfigModal, m2: ConfigModal, t: (usize, usize, bool, bool, bool)) -> bool {
    m2 == (ConfigModal {
        selected_field: t.0,
        image_protocol_idx: t.1,
        use_nerd_icons: t.2,
        auto_discover: t.3,
        disable_auto_colors: t.4,
        ..m
    })
}

fn move_in_dialog(m: &mut ConfigModal, key: KeyCode)
    requires
        old(m).discovered_servers@.len() + 12 <= usize::MAX,
    ensures
        modal_moved(*old(m), *final(m), config_nav_step(*old(m), key)),
{
    proof {
        reveal(config_nav_step);
    }
    let count = m.field_count();
    let sel = m.selected_field;
    let kind = m.field_kind(sel);
    let up = if sel > 0 { sel - 1 } else { sel };
    let down = if sel < count - 1 { sel + 1 } else { sel };
    let next_mode = (m.image_protocol_idx % IMAGE_PROTOCOL_COUNT + 1) % IMAGE_PROTOCOL_COUNT;
    proof {
        let a = m.image_protocol_idx as int;
        assert((a + 1) % 5 == (a % 5 + 1) % 5) by (nonlinear_arith);
    }
    let prev_mode = if m.image_protocol_idx == 0 { IMAGE_PROTOCOL_COUNT - 1 } else { m.image_protocol_idx - 1 };
    if key == KeyCode::Up || key == KeyCode::Char('k') {
        m.selected_field = up;
    } else if key == KeyCode::Down || key == KeyCode::Char('j') {
        m.selected_field = down;
    } else if key == KeyCode::Tab {
        m.selected_field = (sel % count + 1) % count;
        proof {
            let a = sel as int;
            let c = count as int;
            assert((a + 1) % c == (a % c + 1) % c) by (nonlinear_arith)
                requires c > 0;
        }
    } else if key == KeyCode::Left {
        if kind == FieldKind::SelectorProtocol {
            m.image_protocol_idx = prev_mode;
        } else {
            m.selected_field = up;
        }
    } else if key == KeyCode::Right {
        if kind == FieldKind::SelectorProtocol {
            m.image_protocol_idx = next_mode;
        } else {
            m.selected_field = down;
        }
    } else if key == KeyCode::Char(' ') {
        if kind == FieldKind::ToggleNerd {
            m.use_nerd_icons = !m.use_nerd_icons;
        } else if kind == FieldKind::ToggleDiscover {
            m.auto_discover = !m.auto_discover;
        } else if kind == FieldKind::ToggleColors {
            m.disable_auto_colors = !m.disable_auto_colors;
        } else if kind == FieldKind::SelectorProtocol {
            m.image_protocol_idx = next_mode;
        }
    }
}

/// The text of the settings as the dialog holds them, checked: `Err` with the message shown
/// in the dialog, or `Ok` with (host, port, user, password, mask, image mode), the texts
/// trimmed (the password as typed) and empty user or password meaning none.
pub open spec fn validate_form(m: ConfigModal) -> Result<(Seq<char>, u16, Option<Seq<char>>, Option<Seq<char>>, Seq<char>, Seq<char>), Seq<char>> {
    let host = spec_trim(m.host@);
    let mask = spec_trim(m.broadcast_mask@);
    let user = spec_trim(m.username@);
    if host.len() == 0 {
        Err("Host cannot be empty"@)
    } else if mask.len() == 0 {
        Err("Broadcast mask cannot be empty"@)
    } else {
        match spec_parse_u16(spec_trim(m.port@)) {
            Some(p) => if p > 0 {
                Ok((
                    host,
                    p,
                    if user.len() == 0 { None } else { Some(user) },
                    if m.password@.len() == 0 { None } else { Some(m.password@) },
                    mask,
                    spec_image_protocol(m.image_protocol_idx as int),
                ))
            } else {
                Err("Invalid port (1\u{2013}65535)"@)
            },
            None => Err("Invalid port (1\u{2013}65535)"@),
        }
    }
}

pub open spec fn opt_text(o: Option<String>) -> Option<Seq<char>> {
    match o {
        Some(s) => Some(s@),
        None => None,
    }
}

/// `new` holds the checked settings `v` of the dialog `m`; what the dialog does not show
/// (default player, global volume, full-art mode) is kept from `old`.
pub open spec fn config_from_form(old: Config, new: Config, m: ConfigModal, v: (Seq<char>, u16, Option<Seq<char>>, Option<Seq<char>>, Seq<char>, Seq<char>)) -> bool {
    &&& new.host@ == v.0
    &&& new.port == v.1
    &&& opt_text(new.username) == v.2
    &&& opt_text(new.password) == v.3
    &&& new.broadcast_mask@ == v.4
    &&& new.image_protocol@ == v.5
    &&& new.use_nerd_icons == m.use_nerd_icons
    &&& new.auto_discover == m.auto_discover
    &&& new.disable_auto_colors == m.disable_auto_colors
    &&& new.default_player == old.default_player
    &&& new.global_volume_control == old.global_volume_control
    &&& new.full_art_mode == old.full_art_mode
}

/// The dialog showing error `e`.
pub open spec fn modal_error(old: App, new: App, e: Seq<char>) -> bool {
    match old.config_modal {
        Some(m) => {
            &&& new == (App { config_modal: new.config_modal, ..old })
            &&& new.config_modal matches Some(m2) && m2 == (ConfigModal { error: m2.error, ..m })
                && (m2.error matches Some(x) && x@ == e)
        },
        None => new == old,
    }
}

/// Shows error `msg` in the settings dialog.
pub fn set_modal_error(app: &mut App, msg: &str)
    ensures
        modal_error(*old(app), *final(app), msg@),
{
    if let Some(m) = &mut app.config_modal {
        m.error = Some(to_owned_string(msg));
    }
}

/// Saving from the dialog: with valid settings `cfg` takes them and the result is true (the
/// caller then writes them and reports how that went); otherwise the dialog shows why and
/// `cfg` is unchanged.
pub open spec fn config_save_post(old: App, new: App, oldc: Config, newc: Config, r: bool) -> bool {
    match old.config_modal {
        None => new == old && newc == oldc && !r,
        Some(m) => match validate_form(m) {
            Err(e) => modal_error(old, new, e) && newc == oldc && !r,
            Ok(v) => new == old && config_from_form(oldc, newc, m, v) && r,
        },
    }
}

fn opt_nonempty(s: String) -> (r: Option<String>)
    ensures
        opt_text(r) == (if s@.len() == 0 { None } else { Some(s@) }),
{
    if s.unicode_len() == 0 {
        None
    } else {
        Some(s)
    }
}

/// Checks the dialog's settings and, when they are valid, puts them into `cfg`.
pub fn apply_config_save(app: &mut App, cfg: &mut Config) -> (r: bool)
    requires
        old(app).config_modal matches Some(m) ==> m.image_protocol_idx < IMAGE_PROTOCOL_COUNT,
    ensures
        config_save_post(*old(app), *final(app), *old(cfg), *final(cfg), r),
{
    let (host, port_str, username, password, mask, proto, nerd, discover, colors) = match &app.config_modal {
        Some(m) => (
            trim_owned(m.host.as_str()),
            trim_owned(m.port.as_str()),
            trim_owned(m.username.as_str()),
            m.password.clone(),
            trim_owned(m.broadcast_mask.as_str()),
            image_protocol(m.image_protocol_idx),
            m.use_nerd_icons,
            m.auto_discover,
            m.disable_auto_colors,
        ),
        None => {
            return false;
        },
    };
    if host.unicode_len() == 0 {
        set_modal_error(app, "Host cannot be empty");
        return false;
    }
    if mask.unicode_len() == 0 {
        set_modal_error(app, "Broadcast mask cannot be empty");
        return false;
    }
    match parse_u16(port_str.as_str()) {
        Some(port) => {
            if port > 0 {
                cfg.host = host;
                cfg.port = port;
                cfg.use_nerd_icons = nerd;
                cfg.auto_discover = discover;
                cfg.broadcast_mask = mask;
                cfg.disable_auto_colors = colors;
                cfg.image_protocol = to_owned_string(proto);
                cfg.username = opt_nonempty(username);
                cfg.password = opt_nonempty(password);
                true
            } else {
                set_modal_error(app, "Invalid port (1\u{2013}65535)");
                false
            }
        },
        None => {
            set_modal_error(app, "Invalid port (1\u{2013}65535)");
            false
        },
    }
}

/// After the settings were written: the dialog closes, the new display settings apply and
/// the client starts over with no players, reconnecting.
pub open spec fn config_saved_post(old: App, new: App, cfg: Config) -> bool {
    &&& new == (App {
        use_nerd_icons: cfg.use_nerd_icons,
        disable_auto_colors: cfg.disable_auto_colors,
        config_modal: None,
        connection: ConnectionState::Reconnecting,
        players: new.players,
        active_player: None,
        now_playing: None,
        status_message: new.status_message,
        ..old
    })
    &&& new.players@.len() == 0
    &&& new.status_message matches Some(m) && m@ == "Reconnecting..."@
}

/// Applies the written settings `cfg` to the state.
pub fn finish_config_save(app: &mut App, cfg: &Config)
    ensures
        config_saved_post(*old(app), *final(app), *cfg),
{
    app.use_nerd_icons = cfg.use_nerd_icons;
    app.disable_auto_colors = cfg.disable_auto_colors;
    app.config_modal = None;
    app.connection = ConnectionState::Reconnecting;
    app.players = Vec::new();
    app.active_player = None;
    app.now_playing = None;
    app.status_message = Some(to_owned_string("Reconnecting..."));
}

/// The settings could not be written: the dialog shows why.
pub fn config_save_failed(app: &mut App, err: &str)
    ensures
        modal_error(*old(app), *final(app), "Save error: "@ + err@),
{
    let msg = concat2("Save error: ", err);
    set_modal_error(app, msg.as_str());
}

/// `new` holds dialog `m2` in place of the open one; nothing else changes.
pub open spec fn with_modal(old: App, new: App, m2: ConfigModal) -> bool {
    new == (App { config_modal: Some(m2), ..old })
}

/// Activating row `idx` of dialog `m` (for the rows that change only the dialog): toggles
/// flip; the image mode moves on; the scan button, unless a scan runs, starts one (the list
/// of found servers empties); a found server becomes the host and the first row is selected;
/// a text field starts editing with the cursor at the end of the selected field's text and
/// the error cleared.
pub open spec fn activate_modal_step(m: ConfigModal, m2: ConfigModal, idx: usize) -> bool {
    let k = spec_field_kind(m.discovered_servers@.len() as int, idx as int);
    if k == FieldKind::ToggleNerd {
        m2 == (ConfigModal { use_nerd_icons: !m.use_nerd_icons, ..m })
    } else if k == FieldKind::ToggleDiscover {
        m2 == (ConfigModal { auto_discover: !m.auto_discover, ..m })
    } else if k == FieldKind::ToggleColors {
        m2 == (ConfigModal { disable_auto_colors: !m.disable_auto_colors, ..m })
    } else if k == FieldKind::SelectorProtocol {
        m2 == (ConfigModal { image_protocol_idx: ((m.image_protocol_idx + 1) % (IMAGE_PROTOCOL_COUNT as int)) as usize, ..m })
    } else if k == FieldKind::ScanButton {
        if !m.is_scanning {
            &&& m2 == (ConfigModal { is_scanning: true, scan_attempted: true, discovered_servers: m2.discovered_servers, ..m })
            &&& m2.discovered_servers@.len() == 0
        } else {
            m2 == m
        }
    } else if k is DiscoveredServer {
        let i = k->DiscoveredServer_0;
        if i < m.discovered_servers@.len() {
            m2 == (ConfigModal { host: m.discovered_servers@[i as int], selected_field: 0, ..m })
        } else {
            m2 == m
        }
    } else {
        m2 == (ConfigModal { editing: true, error: None, cursor_pos: m.field_text(m.selected_kind()).len() as usize, ..m })
    }
}

/// Activating row `idx` of the open dialog: OK saves (see `config_save_post`), Cancel closes
/// the dialog, the scan button asks for a scan with the dialog's mask and credentials, and
/// the other rows act as `activate_modal_step` says.
pub open spec fn activate_post(old: App, new: App, effects: Seq<EffectV>, oldc: Config, newc: Config, save: bool, idx: usize) -> bool {
    match old.config_modal {
        None => new == old && effects.len() == 0 && newc == oldc && !save,
        Some(m) => {
            let k = spec_field_kind(m.discovered_servers@.len() as int, idx as int);
            if k == FieldKind::OkButton {
                config_save_post(old, new, oldc, newc, save) && effects.len() == 0
            } else if k == FieldKind::CancelButton {
                new == (App { config_modal: None, ..old }) && effects.len() == 0 && newc == oldc && !save
            } else {
                &&& new.config_modal matches Some(m2) && with_modal(old, new, m2) && activate_modal_step(m, m2, idx)
                &&& effects == (if k == FieldKind::ScanButton && !m.is_scanning {
                    seq![EffectV::ScanServers(m.broadcast_mask@, m.username@, m.password@)]
                } else {
                    Seq::empty()
                })
                &&& newc == oldc
                &&& !save
            }
        },
    }
}

fn activate_in_modal(m: &mut ConfigModal, idx: usize) -> (r: Effects)
    requires
        !(spec_field_kind(old(m).discovered_servers@.len() as int, idx as int) is OkButton),
        !(spec_field_kind(old(m).discovered_servers@.len() as int, idx as int) is CancelButton),
    ensures
        activate_modal_step(*old(m), *final(m), idx),
        effects_v(r) == (if spec_field_kind(old(m).discovered_servers@.len() as int, idx as int) == FieldKind::ScanButton && !old(m).is_scanning {
            seq![EffectV::ScanServers(old(m).broadcast_mask@, old(m).username@, old(m).password@)]
        } else {
            Seq::empty()
        }),
{
    let kind = m.field_kind(idx);
    match kind {
        FieldKind::ToggleNerd => {
            m.use_nerd_icons = !m.use_nerd_icons;
            no_effects()
        },
        FieldKind::ToggleDiscover => {
            m.auto_discover = !m.auto_discover;
            no_effects()
        },
        FieldKind::ToggleColors => {
            m.disable_auto_colors = !m.disable_auto_colors;
            no_effects()
        },
        FieldKind::SelectorProtocol => {
            let next = (m.image_protocol_idx % IMAGE_PROTOCOL_COUNT + 1) % IMAGE_PROTOCOL_COUNT;
            proof {
                let a = m.image_protocol_idx as int;
                assert((a + 1) % 5 == (a % 5 + 1) % 5) by (nonlinear_arith);
            }
            m.image_protocol_idx = next;
            no_effects()
        },
        FieldKind::ScanButton => {
            if !m.is_scanning {
                m.is_scanning = true;
                m.scan_attempted = true;
                m.discovered_servers = Vec::new();
                one_effect(Effect::ScanServers(m.broadcast_mask.clone(), m.username.clone(), m.password.clone()))
            } else {
                no_effects()
            }
        },
        FieldKind::DiscoveredServer(i) => {
            if i < m.discovered_servers.len() {
                m.host = m.discovered_servers[i].clone();
                m.selected_field = 0;
            }
            no_effects()
        },
        _ => {
            let len = m.current_field_char_count();
            m.editing = true;
            m.error = None;
            m.cursor_pos = len;
            no_effects()
        },
    }
}

pub(crate) fn take_config_modal(app: &mut App) -> (r: Option<ConfigModal>)
    ensures
        r == old(app).config_modal,
        *final(app) == (App { config_modal: None, ..*old(app) }),
{
    let mut m: Option<ConfigModal> = None;
    std::mem::swap(&mut m, &mut app.config_modal);
    m
}

pub(crate) fn put_config_modal(app: &mut App, m: ConfigModal)
    ensures
        *final(app) == (App { config_modal: Some(m), ..*old(app) }),
{
    app.config_modal = Some(m);
}

/// Activates row `idx` of the settings dialog (Enter on it, or a click). True when `cfg`
/// took new settings that the caller must write.
pub fn activate_config_field(app: &mut App, idx: usize, cfg: &mut Config) -> (r: (Effects, bool))
    requires
        old(app).config_modal matches Some(m) ==> (spec_field_kind(m.discovered_servers@.len() as int, idx as int)
            == FieldKind::OkButton ==> m.image_protocol_idx < IMAGE_PROTOCOL_COUNT),
    ensures
        activate_post(*old(app), *final(app), effects_v(r.0), *old(cfg), *final(cfg), r.1, idx),
{
    let kind = match &app.config_modal {
        Some(m) => m.field_kind(idx),
        None => {
            return (no_effects(), false);
        },
    };
    if kind == FieldKind::OkButton {
        let save = apply_config_save(app, cfg);
        (no_effects(), save)
    } else if kind == FieldKind::CancelButton {
        take_config_modal(app);
        (no_effects(), false)
    } else {
        let mut m = match take_config_modal(app) {
            Some(m) => m,
            None => {
                return (no_effects(), false);
            },
        };
        let effects = activate_in_modal(&mut m, idx);
        put_config_modal(app, m);
        (effects, false)
    }
}

/// The dialog can take `key`: a key that inserts or deletes stays within the text, the row
/// count fits in a `usize`, and a key that saves finds a known image mode.
pub open spec fn config_key_ok(m: ConfigModal, key: KeyCode) -> bool {
    &&& m.editing ==> config_edit_ok(m, key)
    &&& m.discovered_servers@.len() + 12 <= usize::MAX
    &&& saves_with(m, key) ==> m.image_protocol_idx < IMAGE_PROTOCOL_COUNT
}

/// `key` saves the settings: `s`, or Enter or `i` on the OK button, while no field is edited.
pub open spec fn saves_with(m: ConfigModal, key: KeyCode) -> bool {
    &&& !m.editing
    &&& (key == KeyCode::Char('s') || ((key == KeyCode::Enter || key == KeyCode::Char('i'))
        && spec_field_kind(m.discovered_servers@.len() as int, m.selected_field as int) == FieldKind::OkButton))
}

/// Whether the dialog can take `key` (see `config_key_ok`).
pub fn config_key_fits(m: &ConfigModal, key: KeyCode) -> (r: bool)
    ensures
        r == config_key_ok(*m, key),
{
    let kind = m.field_kind(m.selected_field);
    let edit_ok = if m.editing {
        let len = current_field_text(m).unicode_len();
        let cp = m.cursor_pos;
        let text = is_text_kind(kind);
        let inserts = match key {
            KeyCode::Char(c) => !(kind == FieldKind::TextPort && !('0' <= c && c <= '9')),
            _ => false,
        };
        (!inserts || (cp < usize::MAX && (!text || cp <= len)))
            && (!(key == KeyCode::Backspace && cp > 0 && text) || cp <= len)
    } else {
        true
    };
    let rows_ok = m.discovered_servers.len() <= usize::MAX - 12;
    let saves = !m.editing && (key == KeyCode::Char('s') || ((key == KeyCode::Enter || key == KeyCode::Char('i'))
        && kind == FieldKind::OkButton));
    edit_ok && rows_ok && (!saves || m.image_protocol_idx < IMAGE_PROTOCOL_COUNT)
}

/// A key while the settings dialog is open: while a field is edited the key edits it (see
/// `config_edit_step`); otherwise Enter and `i` activate the selected row, `s` saves, Esc,
/// `c` and `q` close the dialog, and the other keys move or change values (see
/// `config_nav_step`). The second result is true when `cfg` took new settings that the
/// caller must write.
pub open spec fn config_key_post(old: App, new: App, effects: Seq<EffectV>, oldc: Config, newc: Config, save: bool, key: KeyCode) -> bool {
    match old.config_modal {
        None => new == old && effects.len() == 0 && newc == oldc && !save,
        Some(m) => if m.editing {
            &&& new.config_modal matches Some(m2) && with_modal(old, new, m2) && modal_edited(m, m2, config_edit_step(m, key))
            &&& effects.len() == 0 && newc == oldc && !save
        } else if key == KeyCode::Enter || key == KeyCode::Char('i') {
            activate_post(old, new, effects, oldc, newc, save, m.selected_field)
        } else if key == KeyCode::Char('s') {
            config_save_post(old, new, oldc, newc, save) && effects.len() == 0
        } else if key == KeyCode::Esc || key == KeyCode::Char('c') || key == KeyCode::Char('q') {
            new == (App { config_modal: None, ..old }) && effects.len() == 0 && newc == oldc && !save
        } else {
            &&& new.config_modal matches Some(m2) && with_modal(old, new, m2) && modal_moved(m, m2, config_nav_step(m, key))
            &&& effects.len() == 0 && newc == oldc && !save
        },
    }
}

fn edit_open_field(app: &mut App, code: KeyCode)
    requires
        old(app).config_modal matches Some(m) && config_edit_ok(m, code),
    ensures
        old(app).config_modal matches Some(m) && (final(app).config_modal matches Some(m2)
            && with_modal(*old(app), *final(app), m2) && modal_edited(m, m2, config_edit_step(m, code))),
{
    let mut m = match take_config_modal(app) {
        Some(m) => m,
        None => {
            return;
        },
    };
    edit_field(&mut m, code);
    put_config_modal(app, m);
}

fn move_in_open_dialog(app: &mut App, code: KeyCode)
    requires
        old(app).config_modal matches Some(m) && m.discovered_servers@.len() + 12 <= usize::MAX,
    ensures
        old(app).config_modal matches Some(m) && (final(app).config_modal matches Some(m2)
            && with_modal(*old(app), *final(app), m2) && modal_moved(m, m2, config_nav_step(m, code))),
{
    let mut m = match take_config_modal(app) {
        Some(m) => m,
        None => {
            return;
        },
    };
    move_in_dialog(&mut m, code);
    put_config_modal(app, m);
}

/// A key while the settings dialog is open (see `config_key_post`).
pub fn handle_config_key(app: &mut App, key: KeyInput, cfg: &mut Config) -> (r: (Effects, bool))
    requires
        old(app).config_modal matches Some(m) ==> config_key_ok(m, key.code),
    ensures
        config_key_post(*old(app), *final(app), effects_v(r.0), *old(cfg), *final(cfg), r.1, key.code),
{
    let (editing, selected) = match &app.config_modal {
        Some(m) => (m.editing, m.selected_field),
        None => {
            return (no_effects(), false);
        },
    };
    let code = key.code;
    if editing {
        edit_open_field(app, code);
        (no_effects(), false)
    } else if code == KeyCode::Enter || code == KeyCode::Char('i') {
        activate_config_field(app, selected, cfg)
    } else if code == KeyCode::Char('s') {
        let save = apply_config_save(app, cfg);
        (no_effects(), save)
    } else if code == KeyCode::Esc || code == KeyCode::Char('c') || code == KeyCode::Char('q') {
        take_config_modal(app);
        (no_effects(), false)
    } else {
        move_in_open_dialog(app, code);
        (no_effects(), false)
    }
}

/// `new` is `old` with the settings dialog open on the settings `cfg`: first row selected,
/// not editing, no scan made.
pub open spec fn config_opened(old: App, new: App, cfg: Config) -> bool {
    &&& new == (App { config_modal: new.config_modal, ..old })
    &&& new.config_modal matches Some(m) && m.host@ == cfg.host@
        && m.port@ == crate::text::spec_decimal(cfg.port as nat)
        && m.username@ == (match cfg.username { Some(u) => u@, None => Seq::<char>::empty() })
        && m.password@ == (match cfg.password { Some(p) => p@, None => Seq::<char>::empty() })
        && m.use_nerd_icons == cfg.use_nerd_icons && m.auto_discover == cfg.auto_discover
        && m.broadcast_mask@ == cfg.broadcast_mask@ && m.disable_auto_colors == cfg.disable_auto_colors
        && m.image_protocol_idx == crate::app::spec_image_protocol_index(cfg.image_protocol@)
        && m.discovered_servers@.len() == 0 && !m.is_scanning && !m.scan_attempted
        && m.selected_field == 0 && !m.editing && m.cursor_pos == 0 && m.error is None
}

/// Opens the settings dialog on the settings `cfg` (see `config_opened`).
pub fn open_config(app: &mut App, cfg: &Config)
    ensures
        config_opened(*old(app), *final(app), *cfg),
{
    let username: Option<&str> = match &cfg.username {
        Some(u) => Some(u.as_str()),
        None => None,
    };
    let password: Option<&str> = match &cfg.password {
        Some(p) => Some(p.as_str()),
        None => None,
    };
    let m = ConfigModal::new(
        cfg.host.as_str(),
        cfg.port,
        username,
        password,
        cfg.use_nerd_icons,
        cfg.auto_discover,
        cfg.broadcast_mask.as_str(),
        cfg.disable_auto_colors,
        cfg.image_protocol.as_str(),
    );
    app.config_modal = Some(m);
}

} // verus!
