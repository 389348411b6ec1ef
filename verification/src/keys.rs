//! The keyboard: which handler a key goes to, and what the settings file makes of it.
use vstd::prelude::*;
use crate::actions::{action_post, handle_action, handle_context_menu_key, context_key_post};
use crate::app::{App, MainView};
use crate::config::Config;
use crate::filter::{filter_key_ok, filter_key_post, handle_local_filter_key};
use crate::config_dialog::{config_key_fits, config_key_ok, config_key_post, config_opened, handle_config_key, open_config};
use crate::editing::{app_search_input_post, edit_key_ok, handle_app_search_input_key, handle_search_input_key, search_input_post};
use crate::effects::{EffectV, Effects, effects_v, no_effects};
use crate::events::{Action, KeyCode, KeyInput, key_to_action, spec_key_to_action};
use crate::handlers::{
    clear_queue_key_post, delete_dialog_key_post, handle_confirm_clear_queue_key, handle_confirm_delete_queue_item_key,
    handle_confirm_quit_key, is_down_key, quit_step,
};
use crate::sync::{handle_sync_modal_key, open_sync_modal, open_sync_post, sync_key_post};
use crate::text::str_eq;

verus! {

/// Longest gap (ms) between two Esc presses that ask to quit.
pub const DOUBLE_ESC_MS: u64 = 500;

/// An Esc at `now` completes a double Esc: the last one, at `last`, was less than the double
/// Esc time before.
pub open spec fn spec_is_double_esc(last: Option<u64>, now: u64) -> bool {
    match last {
        Some(t) => (if now > t { now - t } else { 0 }) < DOUBLE_ESC_MS,
        None => false,
    }
}

/// What the client must do after a key, besides making its requests.
#[derive(Debug, Clone, Copy, PartialEq, Eq, Structural)]
pub struct KeyFlags {
    /// Leave the program.
    pub quit: bool,
    /// Write the settings file.
    pub save_config: bool,
    /// Full-art mode was entered or left: the cover art is drawn anew.
    pub art_mode_changed: bool,
    /// The image mode setting changed: pictures are drawn anew in that mode.
    pub protocol_changed: bool,
}

/// The state can take the key: each handler's own condition on the state it acts on.
pub open spec fn key_ok(app: App, key: KeyInput) -> bool {
    let code = key.code;
    if app.config_modal is Some {
        app.config_modal matches Some(m) && config_key_ok(m, code)
    } else if app.sync_modal is Some {
        is_down_key(code) ==> (app.sync_modal matches Some(m) && m.list_selected < usize::MAX)
    } else if app.confirm_quit {
        code == KeyCode::Tab || code == KeyCode::Right || code == KeyCode::Left ==> app.quit_selected_button <= 1
    } else if app.confirm_clear_queue {
        code == KeyCode::Tab || code == KeyCode::Right || code == KeyCode::Left ==> app.clear_queue_selected_button <= 1
    } else if app.confirm_delete_queue_item is Some {
        &&& (is_down_key(code) || code == KeyCode::Tab) ==> app.delete_queue_selected_button != 127
        &&& code == KeyCode::Enter && app.delete_queue_selected_button == 1
            ==> (app.confirm_delete_queue_item matches Some(idx) && idx <= app.queue@.len())
    } else if app.context_menu is Some {
        true
    } else if app.main_view is Search && app.search_input_active {
        edit_key_ok(code, app.search_query@, app.search_cursor_pos as nat)
    } else if app.main_view is AppSearch && app.app_search_input_active {
        edit_key_ok(code, app.app_search_query@, app.app_search_cursor_pos as nat)
    } else if filter_editing(app) {
        filter_key_ok(app, code)
    } else {
        spec_key_to_action(key) == Action::PageDown && !app.focus_sidebar && !(app.main_view is Help)
            ==> app.main_selected + 10 <= usize::MAX
    }
}

/// The filter's query is being edited: it takes the keys.
pub open spec fn filter_editing(app: App) -> bool {
    app.local_filter matches Some(f) && f.editing
}

fn editing_filter(app: &App) -> (r: bool)
    ensures
        r == filter_editing(*app),
{
    match &app.local_filter {
        Some(f) => f.editing,
        None => false,
    }
}

/// Whether an editing key fits a text field (see `edit_key_ok`).
fn edit_key_fits(code: KeyCode, text: &String, cursor: usize) -> (r: bool)
    ensures
        r == edit_key_ok(code, text@, cursor as nat),
{
    let char_ok = match code {
        KeyCode::Char(_) => cursor < usize::MAX,
        _ => true,
    };
    char_ok && (!(code == KeyCode::Backspace && cursor > 0) || cursor <= text.unicode_len())
}

/// Whether the state can take the key (see `key_ok`); a caller tests this before
/// `handle_key`.
pub fn key_fits(app: &App, key: KeyInput) -> (r: bool)
    ensures
        r == key_ok(*app, key),
{
    let code = key.code;
    let down = code == KeyCode::Down || code == KeyCode::Char('j');
    let sideways = code == KeyCode::Tab || code == KeyCode::Right || code == KeyCode::Left;
    if let Some(m) = &app.config_modal {
        config_key_fits(m, code)
    } else if let Some(m) = &app.sync_modal {
        !down || m.list_selected < usize::MAX
    } else if app.confirm_quit {
        !sideways || app.quit_selected_button <= 1
    } else if app.confirm_clear_queue {
        !sideways || app.clear_queue_selected_button <= 1
    } else if let Some(idx) = app.confirm_delete_queue_item {
        (!(down || code == KeyCode::Tab) || app.delete_queue_selected_button != 127)
            && (!(code == KeyCode::Enter && app.delete_queue_selected_button == 1) || idx <= app.queue.len())
    } else if app.context_menu.is_some() {
        true
    } else if matches!(app.main_view, MainView::Search) && app.search_input_active {
        edit_key_fits(code, &app.search_query, app.search_cursor_pos)
    } else if matches!(app.main_view, MainView::AppSearch { .. }) && app.app_search_input_active {
        edit_key_fits(code, &app.app_search_query, app.app_search_cursor_pos)
    } else if let Some(f) = &app.local_filter {
        if f.editing {
            edit_key_fits(code, &f.query, f.cursor)
        } else {
            !(key_to_action(key) == Action::PageDown && !app.focus_sidebar && !matches!(app.main_view, MainView::Help))
                || app.main_selected <= usize::MAX - 10
        }
    } else {
        !(key_to_action(key) == Action::PageDown && !app.focus_sidebar && !matches!(app.main_view, MainView::Help))
            || app.main_selected <= usize::MAX - 10
    }
}

/// A key. An open dialog or menu takes it first, in this order: the settings dialog, the sync
/// dialog, the quit, clear-queue and delete confirmations, the context menu; then a focused
/// search box, then the query of the list filter while it is edited (see
/// `filter_key_post`); then `s` on the Players list opens the selected player's sync dialog. Otherwise
/// a second Esc within the double-Esc time asks whether to quit (Cancel selected), and any
/// other key does its action (see `spec_key_to_action`): the settings key opens the settings
/// dialog, Quit quits, and a change of global volume control or of full-art mode goes into the
/// settings, which are then written. `esc` is the time of the last Esc, if the last key was
/// one.
#[verifier::opaque]
pub open spec fn key_post(
    old: App,
    new: App,
    effects: Seq<EffectV>,
    oldc: Config,
    newc: Config,
    f: KeyFlags,
    key: KeyInput,
    esc: Option<u64>,
    esc_new: Option<u64>,
    now: u64,
) -> bool {
    let code = key.code;
    let plain = newc == oldc && !f.quit && !f.save_config && !f.art_mode_changed && !f.protocol_changed && esc_new == esc;
    if old.config_modal is Some {
        &&& config_key_post(old, new, effects, oldc, newc, f.save_config, code)
        &&& !f.quit && !f.art_mode_changed && esc_new == esc
        &&& f.protocol_changed == (newc.image_protocol@ != oldc.image_protocol@)
    } else if old.sync_modal is Some {
        plain && sync_key_post(old, new, effects, code)
    } else if old.confirm_quit {
        let step = quit_step(old.confirm_quit, old.quit_selected_button, old.should_quit, code);
        &&& newc == oldc && !f.save_config && !f.art_mode_changed && !f.protocol_changed && esc_new == esc
        &&& new == (App { confirm_quit: step.0, quit_selected_button: step.1, should_quit: step.2, ..old })
        &&& effects.len() == 0 && f.quit == step.2
    } else if old.confirm_clear_queue {
        plain && clear_queue_key_post(old, new, effects, code)
    } else if old.confirm_delete_queue_item is Some {
        plain && delete_dialog_key_post(old, new, effects, code)
    } else if old.context_menu is Some {
        plain && context_key_post(old, new, effects, code)
    } else if old.main_view is Search && old.search_input_active {
        plain && search_input_post(old, new, effects, code)
    } else if old.main_view is AppSearch && old.app_search_input_active {
        plain && app_search_input_post(old, new, effects, code)
    } else if filter_editing(old) {
        plain && filter_key_post(old, new, code) && effects.len() == 0
    } else if old.main_view is Players && !old.focus_sidebar && code == KeyCode::Char('s') {
        plain && open_sync_post(old, new, old.main_selected) && effects.len() == 0
    } else if code == KeyCode::Esc && spec_is_double_esc(esc, now) {
        &&& new == (App { confirm_quit: true, quit_selected_button: 1, ..old }) && effects.len() == 0
        &&& newc == oldc && !f.quit && !f.save_config && !f.art_mode_changed && !f.protocol_changed
        &&& esc_new is None
    } else {
        let action = spec_key_to_action(key);
        let gvc = new.global_volume_control != old.global_volume_control;
        let art = new.full_art_mode != old.full_art_mode;
        &&& esc_new == (if code == KeyCode::Esc { Some(now) } else { None })
        &&& !f.protocol_changed
        &&& if action == Action::OpenConfig {
            config_opened(old, new, oldc) && effects.len() == 0 && newc == oldc && !f.quit && !f.save_config
                && !f.art_mode_changed
        } else {
            &&& action_post(old, new, effects, action, now)
            &&& f.quit == (action == Action::Quit)
            &&& f.art_mode_changed == art
            &&& f.save_config == (gvc || art)
            &&& newc == (Config {
                global_volume_control: if gvc { new.global_volume_control } else { oldc.global_volume_control },
                full_art_mode: if art { new.full_art_mode } else { oldc.full_art_mode },
                ..oldc
            })
        }
    }
}

fn plain_flags() -> (r: KeyFlags)
    ensures
        !r.quit && !r.save_config && !r.art_mode_changed && !r.protocol_changed,
{
    KeyFlags { quit: false, save_config: false, art_mode_changed: false, protocol_changed: false }
}

fn dialog_key(app: &mut App, key: KeyInput, cfg: &mut Config, esc: &mut Option<u64>, now: u64) -> (r: (Effects, KeyFlags))
    requires
        old(app).config_modal is Some || old(app).sync_modal is Some || old(app).confirm_quit || old(app).confirm_clear_queue
            || old(app).confirm_delete_queue_item is Some,
        key_ok(*old(app), key),
    ensures
        key_post(*old(app), *final(app), effects_v(r.0), *old(cfg), *final(cfg), r.1, key, *old(esc), *final(esc), now),
{
    proof {
        reveal(key_post);
    }
    if app.config_modal.is_some() {
        let before = cfg.image_protocol.clone();
        let (effects, save) = handle_config_key(app, key, cfg);
        let changed = !str_eq(before.as_str(), cfg.image_protocol.as_str());
        (effects, KeyFlags { quit: false, save_config: save, art_mode_changed: false, protocol_changed: changed })
    } else if app.sync_modal.is_some() {
        (handle_sync_modal_key(app, key), plain_flags())
    } else if app.confirm_quit {
        handle_confirm_quit_key(app, key);
        let quit = app.should_quit;
        (no_effects(), KeyFlags { quit, save_config: false, art_mode_changed: false, protocol_changed: false })
    } else if app.confirm_clear_queue {
        (handle_confirm_clear_queue_key(app, key), plain_flags())
    } else {
        (handle_confirm_delete_queue_item_key(app, key), plain_flags())
    }
}

fn focused_key(app: &mut App, key: KeyInput, cfg: &mut Config, esc: &mut Option<u64>, now: u64) -> (r: (Effects, KeyFlags))
    requires
        old(app).config_modal is None && old(app).sync_modal is None && !old(app).confirm_quit && !old(app).confirm_clear_queue
            && old(app).confirm_delete_queue_item is None,
        old(app).context_menu is Some || (old(app).main_view is Search && old(app).search_input_active)
            || (old(app).main_view is AppSearch && old(app).app_search_input_active)
            || filter_editing(*old(app))
            || (old(app).main_view is Players && !old(app).focus_sidebar && key.code == KeyCode::Char('s')),
        key_ok(*old(app), key),
    ensures
        key_post(*old(app), *final(app), effects_v(r.0), *old(cfg), *final(cfg), r.1, key, *old(esc), *final(esc), now),
{
    proof {
        reveal(key_post);
    }
    if app.context_menu.is_some() {
        (handle_context_menu_key(app, key), plain_flags())
    } else if matches!(app.main_view, MainView::Search) && app.search_input_active {
        (handle_search_input_key(app, key), plain_flags())
    } else if matches!(app.main_view, MainView::AppSearch { .. }) && app.app_search_input_active {
        (handle_app_search_input_key(app, key), plain_flags())
    } else if editing_filter(app) {
        handle_local_filter_key(app, key.code);
        (no_effects(), plain_flags())
    } else {
        let idx = app.main_selected;
        open_sync_modal(app, idx);
        (no_effects(), plain_flags())
    }
}

fn ask_to_quit(app: &mut App)
    ensures
        *final(app) == (App { confirm_quit: true, quit_selected_button: 1, ..*old(app) }),
{
    app.confirm_quit = true;
    app.quit_selected_button = 1;
}

fn action_key(app: &mut App, key: KeyInput, cfg: &mut Config, esc: &mut Option<u64>, now: u64) -> (r: (Effects, KeyFlags))
    requires
        old(app).config_modal is None && old(app).sync_modal is None && !old(app).confirm_quit && !old(app).confirm_clear_queue
            && old(app).confirm_delete_queue_item is None && old(app).context_menu is None,
        !(old(app).main_view is Search && old(app).search_input_active),
        !(old(app).main_view is AppSearch && old(app).app_search_input_active),
        !filter_editing(*old(app)),
        !(old(app).main_view is Players && !old(app).focus_sidebar && key.code == KeyCode::Char('s')),
        key_ok(*old(app), key),
    ensures
        key_post(*old(app), *final(app), effects_v(r.0), *old(cfg), *final(cfg), r.1, key, *old(esc), *final(esc), now),
{
    proof {
        reveal(key_post);
    }
    if key.code == KeyCode::Esc {
        let double = match *esc {
            Some(t) => (if now > t { now - t } else { 0 }) < DOUBLE_ESC_MS,
            None => false,
        };
        if double {
            *esc = None;
            ask_to_quit(app);
            return (no_effects(), plain_flags());
        }
        *esc = Some(now);
    } else {
        *esc = None;
    }
    let action = key_to_action(key);
    if action == Action::OpenConfig {
        open_config(app, cfg);
        return (no_effects(), plain_flags());
    }
    let prev_gvc = app.global_volume_control;
    let prev_art = app.full_art_mode;
    let (quit, effects) = handle_action(app, action, now);
    let gvc = app.global_volume_control != prev_gvc;
    let art = app.full_art_mode != prev_art;
    if gvc {
        cfg.global_volume_control = app.global_volume_control;
    }
    if art {
        cfg.full_art_mode = app.full_art_mode;
    }
    (effects, KeyFlags { quit, save_config: gvc || art, art_mode_changed: art, protocol_changed: false })
}

/// A key (see `key_post`); `esc` holds the time (ms) of the last Esc while the last key was
/// one, `now` the time of this key.
pub fn handle_key(app: &mut App, key: KeyInput, cfg: &mut Config, esc: &mut Option<u64>, now: u64) -> (r: (Effects, KeyFlags))
    requires
        key_ok(*old(app), key),
    ensures
        key_post(*old(app), *final(app), effects_v(r.0), *old(cfg), *final(cfg), r.1, key, *old(esc), *final(esc), now),
{
    if app.config_modal.is_some() || app.sync_modal.is_some() || app.confirm_quit || app.confirm_clear_queue
        || app.confirm_delete_queue_item.is_some() {
        dialog_key(app, key, cfg, esc, now)
    } else if app.context_menu.is_some() || (matches!(app.main_view, MainView::Search) && app.search_input_active)
        || (matches!(app.main_view, MainView::AppSearch { .. }) && app.app_search_input_active)
        || editing_filter(app)
        || (matches!(app.main_view, MainView::Players) && !app.focus_sidebar && key.code == KeyCode::Char('s')) {
        focused_key(app, key, cfg, esc, now)
    } else {
        action_key(app, key, cfg, esc, now)
    }
}

} // verus!
