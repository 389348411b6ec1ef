//! Mouse input: what a click, or a turn of the wheel, does where it lands.
//!
//! The drawing code lays the screen out; the client hands its areas here with the event, and
//! these functions decide, in the order the screen stacks them, what was hit and what follows.
use vstd::prelude::*;
use crate::actions::{action_post, context_action_post, execute_context_menu_action, handle_action, menu_at};
use crate::app::{App, MainView, ContextMenu, SyncModal, ConfigModal, IMAGE_PROTOCOL_COUNT};
use crate::config::Config;
use crate::config_dialog::{activate_config_field, activate_post, apply_config_save, config_save_post, put_config_modal, take_config_modal};
use crate::effects::{Call, Effect, EffectV, Effects, effects_v, lemma_effects_v_append, no_effects, one_effect, opt_v};
use crate::geometry::{Area, area_wf, compute_context_menu_rect, map_control_button_to_action, point_in, spec_centered_rect_abs, spec_control_button_action, spec_point_in};
use crate::handlers::{clear_queue_request, clear_queue_request_v, delete_choice_post, execute_delete_queue_choice, spec_delete_enabled};
use crate::volume::{MuteState, holds_mute_state, mute_state_of, mute_step, toggle_mute_player};
use crate::events::Action;
use crate::panes::{PaneAreas, main_click, main_click_post, pane_scroll, pane_scroll_post};
use crate::sync::{apply_sync_effects, put_sync_modal, sync_requests, take_sync_modal};

verus! {

/// The kinds of mouse event the client reacts to.
#[derive(Debug, Clone, Copy, PartialEq, Eq, Structural)]
pub enum MouseKind {
    LeftDown,
    RightDown,
    ScrollUp,
    ScrollDown,
    Other,
}

/// `i` is the first of `rects` that holds the cell (`col`, `row`).
pub open spec fn first_hit_at(rects: Seq<Area>, col: u16, row: u16, i: int) -> bool {
    &&& 0 <= i < rects.len()
    &&& spec_point_in(col, row, rects[i])
    &&& forall|j: int| 0 <= j < i ==> !spec_point_in(col, row, #[trigger] rects[j])
}

/// The first of `rects` that holds the cell, if any does.
pub open spec fn spec_first_hit(rects: Seq<Area>, col: u16, row: u16) -> Option<int> {
    if exists|i: int| first_hit_at(rects, col, row, i) {
        Some(choose|i: int| first_hit_at(rects, col, row, i))
    } else {
        None
    }
}

/// The position of the first area under the cell.
pub fn first_hit(rects: &[Area], col: u16, row: u16) -> (r: Option<usize>)
    ensures
        match r {
            Some(i) => spec_first_hit(rects@, col, row) == Some(i as int),
            None => spec_first_hit(rects@, col, row) is None,
        },
{
    let mut i: usize = 0;
    while i < rects.len()
        invariant
            i <= rects@.len(),
            forall|j: int| 0 <= j < i ==> !spec_point_in(col, row, #[trigger] rects@[j]),
        decreases rects@.len() - i,
    {
        if point_in(col, row, rects[i]) {
            proof {
                assert(first_hit_at(rects@, col, row, i as int));
                let k = choose|k: int| first_hit_at(rects@, col, row, k);
                assert(first_hit_at(rects@, col, row, k));
                if k < i {
                    assert(!spec_point_in(col, row, rects@[k]));
                } else if k > i {
                    assert(!spec_point_in(col, row, rects@[i as int]));
                }
            }
            return Some(i);
        }
        i += 1;
    }
    proof {
        assert(!exists|k: int| first_hit_at(rects@, col, row, k));
    }
    None
}

/// What a left click does to the open sync dialog.
#[derive(Debug, Clone, Copy, PartialEq, Eq, Structural)]
pub enum DialogClick {
    /// The confirming button: carry out the dialog.
    Confirm,
    /// Close the dialog.
    Close,
    /// Focus and toggle row `i`.
    Row(usize),
    Nothing,
}

/// The sync dialog's reaction to a click: Synchronize confirms, Cancel closes, a player row
/// is toggled, a click outside the dialog closes it.
pub open spec fn sync_click_choice(col: u16, row: u16, popup: Area, rows: Seq<Area>, sync_rect: Area, cancel_rect: Area) -> DialogClick {
    if spec_point_in(col, row, sync_rect) {
        DialogClick::Confirm
    } else if spec_point_in(col, row, cancel_rect) {
        DialogClick::Close
    } else if spec_first_hit(rows, col, row) is Some {
        DialogClick::Row(spec_first_hit(rows, col, row).unwrap() as usize)
    } else if !spec_point_in(col, row, popup) {
        DialogClick::Close
    } else {
        DialogClick::Nothing
    }
}

/// A left click while the sync dialog is open (see `sync_click_choice`): confirming closes it
/// and sends the requests of `apply_sync_effects`; a row takes the focus and its box flips.
pub open spec fn sync_click_post(old: App, new: App, effects: Seq<EffectV>, choice: DialogClick) -> bool {
    match old.sync_modal {
        None => new == old && effects.len() == 0,
        Some(m) => match choice {
            DialogClick::Confirm => new == (App { sync_modal: None, ..old }) && effects == apply_sync_effects(m),
            DialogClick::Close => new == (App { sync_modal: None, ..old }) && effects.len() == 0,
            DialogClick::Row(i) => {
                &&& new == (App { sync_modal: new.sync_modal, ..old })
                &&& new.sync_modal matches Some(m2) && m2 == (SyncModal {
                    checked: m2.checked,
                    focus_buttons: false,
                    list_selected: i,
                    ..m
                }) && m2.checked@ == (if i < m.checked@.len() { m.checked@.update(i as int, !m.checked@[i as int]) } else { m.checked@ })
                &&& effects.len() == 0
            },
            DialogClick::Nothing => new == old && effects.len() == 0,
        },
    }
}

fn toggle_sync_row(app: &mut App, i: usize)
    ensures
        sync_click_post(*old(app), *final(app), Seq::empty(), DialogClick::Row(i)),
{
    let mut m = match take_sync_modal(app) {
        Some(m) => m,
        None => {
            return;
        },
    };
    m.focus_buttons = false;
    m.list_selected = i;
    if i < m.checked.len() {
        let v = m.checked[i];
        m.checked.set(i, !v);
    }
    put_sync_modal(app, m);
}

fn sync_click_exec(col: u16, row: u16, popup: Area, rows: &Vec<Area>, sync_rect: Area, cancel_rect: Area) -> (r: DialogClick)
    ensures
        r == sync_click_choice(col, row, popup, rows@, sync_rect, cancel_rect),
{
    if point_in(col, row, sync_rect) {
        DialogClick::Confirm
    } else if point_in(col, row, cancel_rect) {
        DialogClick::Close
    } else {
        match first_hit(rows.as_slice(), col, row) {
            Some(i) => DialogClick::Row(i),
            None => if !point_in(col, row, popup) { DialogClick::Close } else { DialogClick::Nothing },
        }
    }
}

/// A left click while the sync dialog is open.
pub fn sync_modal_click(
    app: &mut App,
    col: u16,
    row: u16,
    popup: Area,
    rows: &Vec<Area>,
    sync_rect: Area,
    cancel_rect: Area,
) -> (r: Effects)
    ensures
        sync_click_post(*old(app), *final(app), effects_v(r), sync_click_choice(col, row, popup, rows@, sync_rect, cancel_rect)),
{
    if app.sync_modal.is_none() {
        return no_effects();
    }
    let choice = sync_click_exec(col, row, popup, rows, sync_rect, cancel_rect);
    match choice {
        DialogClick::Confirm => match take_sync_modal(app) {
            Some(m) => sync_requests(&m),
            None => no_effects(),
        },
        DialogClick::Close => {
            take_sync_modal(app);
            no_effects()
        },
        DialogClick::Row(i) => {
            toggle_sync_row(app, i);
            no_effects()
        },
        DialogClick::Nothing => no_effects(),
    }
}

/// A left click while the clear-queue confirmation is open: OK closes it and asks the server
/// to clear the active player's queue; Cancel, or a click outside, closes it.
pub open spec fn clear_queue_click_post(
    old: App,
    new: App,
    effects: Seq<EffectV>,
    col: u16,
    row: u16,
    popup: Area,
    ok_rect: Area,
    cancel_rect: Area,
) -> bool {
    if spec_point_in(col, row, ok_rect) {
        new == (App { confirm_clear_queue: false, ..old }) && effects == clear_queue_request_v(old.active_player, true)
    } else if spec_point_in(col, row, cancel_rect) || !spec_point_in(col, row, popup) {
        new == (App { confirm_clear_queue: false, ..old }) && effects.len() == 0
    } else {
        new == old && effects.len() == 0
    }
}

/// A left click while the clear-queue confirmation is open.
pub fn clear_queue_click(app: &mut App, col: u16, row: u16, popup: Area, ok_rect: Area, cancel_rect: Area) -> (r: Effects)
    ensures
        clear_queue_click_post(*old(app), *final(app), effects_v(r), col, row, popup, ok_rect, cancel_rect),
{
    if point_in(col, row, ok_rect) {
        app.confirm_clear_queue = false;
        clear_queue_request(&app.active_player, true)
    } else if point_in(col, row, cancel_rect) || !point_in(col, row, popup) {
        app.confirm_clear_queue = false;
        no_effects()
    } else {
        no_effects()
    }
}

/// A left click while the quit confirmation is open: Quit quits; Cancel, or a click outside,
/// closes it with Cancel selected again.
pub open spec fn quit_click_post(old: App, new: App, col: u16, row: u16, popup: Area, quit_rect: Area, cancel_rect: Area) -> bool {
    if spec_point_in(col, row, quit_rect) {
        new == (App { confirm_quit: false, should_quit: true, ..old })
    } else if spec_point_in(col, row, cancel_rect) || !spec_point_in(col, row, popup) {
        new == (App { confirm_quit: false, quit_selected_button: 1, ..old })
    } else {
        new == old
    }
}

/// A left click while the quit confirmation is open.
pub fn quit_click(app: &mut App, col: u16, row: u16, popup: Area, quit_rect: Area, cancel_rect: Area)
    ensures
        quit_click_post(*old(app), *final(app), col, row, popup, quit_rect, cancel_rect),
{
    if point_in(col, row, quit_rect) {
        app.confirm_quit = false;
        app.should_quit = true;
    } else if point_in(col, row, cancel_rect) || !point_in(col, row, popup) {
        app.confirm_quit = false;
        app.quit_selected_button = 1;
    }
}

/// The delete dialog's reaction to a click for queue row `idx` of a queue of `len` rows:
/// an enabled option is chosen (`Row` with its number), a disabled one does nothing, a click
/// outside the dialog closes it.
pub open spec fn delete_click_choice(idx: usize, len: int, col: u16, row: u16, popup: Area, options: Seq<Area>) -> DialogClick {
    match spec_first_hit(options, col, row) {
        Some(choice) => if choice < 5 && spec_delete_enabled(idx as int, len)[choice] {
            DialogClick::Row(choice as usize)
        } else {
            DialogClick::Nothing
        },
        None => if !spec_point_in(col, row, popup) { DialogClick::Close } else { DialogClick::Nothing },
    }
}

/// A left click while the delete-from-queue dialog is open: a chosen option closes the
/// dialog (first option selected again) and carries out its choice (the fifth, Cancel,
/// none).
pub open spec fn delete_click_post(old: App, new: App, effects: Seq<EffectV>, col: u16, row: u16, popup: Area, options: Seq<Area>) -> bool {
    match old.confirm_delete_queue_item {
        None => new == old && effects.len() == 0,
        Some(idx) => {
            let len = old.queue@.len() as int;
            match delete_click_choice(idx, len, col, row, popup, options) {
                DialogClick::Row(choice) => {
                    let mid = App { confirm_delete_queue_item: None, delete_queue_selected_button: 0, ..old };
                    if choice < 4 {
                        delete_choice_post(mid, new, effects, idx as int, choice as int, len)
                    } else {
                        new == mid && effects.len() == 0
                    }
                },
                DialogClick::Close => new == (App { confirm_delete_queue_item: None, ..old }) && effects.len() == 0,
                _ => new == old && effects.len() == 0,
            }
        },
    }
}

fn delete_click_exec(idx: usize, len: usize, col: u16, row: u16, popup: Area, options: &[Area; 5]) -> (r: DialogClick)
    ensures
        r == delete_click_choice(idx, len as int, col, row, popup, options@),
{
    match first_hit(options.as_slice(), col, row) {
        Some(choice) => {
            let enabled: [bool; 5] = [true, idx > 0, idx < len && idx + 1 < len, true, true];
            assert(enabled@ =~= spec_delete_enabled(idx as int, len as int));
            if choice < 5 && enabled[choice] {
                DialogClick::Row(choice)
            } else {
                DialogClick::Nothing
            }
        },
        None => if !point_in(col, row, popup) { DialogClick::Close } else { DialogClick::Nothing },
    }
}

fn close_delete_dialog(app: &mut App)
    ensures
        *final(app) == (App { confirm_delete_queue_item: None, delete_queue_selected_button: 0, ..*old(app) }),
{
    app.confirm_delete_queue_item = None;
    app.delete_queue_selected_button = 0;
}

/// A left click while the delete-from-queue dialog is open.
#[verifier::rlimit(40)]
pub fn delete_queue_click(app: &mut App, col: u16, row: u16, popup: Area, options: &[Area; 5]) -> (r: Effects)
    requires
        old(app).confirm_delete_queue_item matches Some(idx)
            ==> (spec_first_hit(options@, col, row) == Some(1int) ==> idx <= old(app).queue@.len()),
    ensures
        delete_click_post(*old(app), *final(app), effects_v(r), col, row, popup, options@),
{
    let idx = match app.confirm_delete_queue_item {
        Some(i) => i,
        None => {
            return no_effects();
        },
    };
    let queue_len = app.queue.len();
    match delete_click_exec(idx, queue_len, col, row, popup, options) {
        DialogClick::Row(choice) => {
            close_delete_dialog(app);
            if choice < 4 {
                execute_delete_queue_choice(app, idx, choice as u8, queue_len)
            } else {
                no_effects()
            }
        },
        DialogClick::Close => {
            app.confirm_delete_queue_item = None;
            no_effects()
        },
        _ => no_effects(),
    }
}

/// The settings dialog's reaction to a click: Save confirms, Cancel closes, a row is
/// activated, a click outside the dialog closes it.
pub open spec fn config_click_choice(col: u16, row: u16, dialog: Area, fields: Seq<Area>, save_rect: Area, cancel_rect: Area) -> DialogClick {
    if spec_point_in(col, row, save_rect) {
        DialogClick::Confirm
    } else if spec_point_in(col, row, cancel_rect) {
        DialogClick::Close
    } else if spec_first_hit(fields, col, row) is Some {
        DialogClick::Row(spec_first_hit(fields, col, row).unwrap() as usize)
    } else if !spec_point_in(col, row, dialog) {
        DialogClick::Close
    } else {
        DialogClick::Nothing
    }
}

/// A left click while the settings dialog is open (see `config_click_choice`): Save checks
/// and takes the settings as `s` does; a clicked row is selected and activated as Enter on it
/// does. The flag is true when `cfg` took new settings that the caller must write.
pub open spec fn config_click_post(old: App, new: App, effects: Seq<EffectV>, oldc: Config, newc: Config, save: bool, choice: DialogClick) -> bool {
    match old.config_modal {
        None => new == old && effects.len() == 0 && newc == oldc && !save,
        Some(m) => match choice {
            DialogClick::Confirm => config_save_post(old, new, oldc, newc, save) && effects.len() == 0,
            DialogClick::Close => new == (App { config_modal: None, ..old }) && effects.len() == 0 && newc == oldc && !save,
            DialogClick::Row(i) => activate_post(
                App { config_modal: Some(ConfigModal { selected_field: i, ..m }), ..old },
                new,
                effects,
                oldc,
                newc,
                save,
                i,
            ),
            DialogClick::Nothing => new == old && effects.len() == 0 && newc == oldc && !save,
        },
    }
}

fn config_click_exec(col: u16, row: u16, dialog: Area, fields: &Vec<Area>, save_rect: Area, cancel_rect: Area) -> (r: DialogClick)
    ensures
        r == config_click_choice(col, row, dialog, fields@, save_rect, cancel_rect),
{
    if point_in(col, row, save_rect) {
        DialogClick::Confirm
    } else if point_in(col, row, cancel_rect) {
        DialogClick::Close
    } else {
        match first_hit(fields.as_slice(), col, row) {
            Some(i) => DialogClick::Row(i),
            None => if !point_in(col, row, dialog) { DialogClick::Close } else { DialogClick::Nothing },
        }
    }
}

fn select_config_row(app: &mut App, i: usize)
    ensures
        match old(app).config_modal {
            Some(m) => *final(app) == (App { config_modal: Some(ConfigModal { selected_field: i, ..m }), ..*old(app) }),
            None => *final(app) == *old(app),
        },
{
    if let Some(m) = &mut app.config_modal {
        m.selected_field = i;
    }
}

/// A left click while the settings dialog is open.
#[verifier::rlimit(40)]
pub fn config_modal_click(
    app: &mut App,
    col: u16,
    row: u16,
    dialog: Area,
    fields: &Vec<Area>,
    save_rect: Area,
    cancel_rect: Area,
    cfg: &mut Config,
) -> (r: (Effects, bool))
    requires
        old(app).config_modal matches Some(m) ==> m.image_protocol_idx < IMAGE_PROTOCOL_COUNT,
    ensures
        config_click_post(*old(app), *final(app), effects_v(r.0), *old(cfg), *final(cfg), r.1,
            config_click_choice(col, row, dialog, fields@, save_rect, cancel_rect)),
{
    if app.config_modal.is_none() {
        return (no_effects(), false);
    }
    match config_click_exec(col, row, dialog, fields, save_rect, cancel_rect) {
        DialogClick::Confirm => {
            let save = apply_config_save(app, cfg);
            (no_effects(), save)
        },
        DialogClick::Close => {
            take_config_modal(app);
            (no_effects(), false)
        },
        DialogClick::Row(i) => {
            select_config_row(app, i);
            activate_config_field(app, i, cfg)
        },
        DialogClick::Nothing => (no_effects(), false),
    }
}

/// The option of the context menu drawn in `menu` (a border row above and below the
/// options) at terminal `row`, when there is one.
pub open spec fn menu_option_at(menu: Area, row: u16, count: nat) -> Option<usize> {
    let top = menu.y + 1;
    let bot = menu.y + (if menu.height >= 1 { menu.height - 1 } else { 0 });
    if top <= row < bot && row - top < count { Some((row - top) as usize) } else { None }
}

/// The mouse while the context menu is open: the wheel moves between the options (without
/// leaving the list); a left click on an option selects and runs it, one on the menu's
/// border does nothing, one outside closes the menu. The menu is drawn centred in
/// `screen` (see `compute_context_menu_rect`).
pub open spec fn context_mouse_post(old: App, new: App, effects: Seq<EffectV>, kind: MouseKind, col: u16, row: u16, screen: Area) -> bool {
    match old.context_menu {
        None => new == old && effects.len() == 0,
        Some(m) => {
            let count = m.spec_option_count();
            let menu = spec_centered_rect_abs(44, (count + 2) as u16, screen);
            match kind {
                MouseKind::ScrollUp => menu_at(old, new, if m.selected > 0 { (m.selected - 1) as usize } else { m.selected })
                    && effects.len() == 0,
                MouseKind::ScrollDown => menu_at(old, new, if m.selected + 1 < count { (m.selected + 1) as usize } else { m.selected })
                    && effects.len() == 0,
                MouseKind::LeftDown => if spec_point_in(col, row, menu) {
                    match menu_option_at(menu, row, count) {
                        Some(i) => context_action_post(App { context_menu: Some(ContextMenu { selected: i, ..m }), ..old }, new, effects),
                        None => new == old && effects.len() == 0,
                    }
                } else {
                    new == (App { context_menu: None, ..old }) && effects.len() == 0
                },
                _ => new == old && effects.len() == 0,
            }
        },
    }
}

fn set_context_selected(app: &mut App, i: usize)
    ensures
        menu_at(*old(app), *final(app), i),
{
    if let Some(m) = &mut app.context_menu {
        m.selected = i;
    }
}

fn menu_option_at_exec(menu: Area, row: u16, count: usize) -> (r: Option<usize>)
    ensures
        r == menu_option_at(menu, row, count as nat),
{
    let top: u32 = menu.y as u32 + 1;
    let h: u32 = if menu.height >= 1 { menu.height as u32 - 1 } else { 0 };
    let bot: u32 = menu.y as u32 + h;
    if top <= row as u32 && (row as u32) < bot && ((row as u32 - top) as usize) < count {
        Some((row as u32 - top) as usize)
    } else {
        None
    }
}

/// The mouse while the context menu is open (see `context_mouse_post`).
pub fn context_menu_mouse(app: &mut App, kind: MouseKind, col: u16, row: u16, screen: Area) -> (r: Effects)
    requires
        area_wf(screen),
    ensures
        context_mouse_post(*old(app), *final(app), effects_v(r), kind, col, row, screen),
{
    let (sel, count) = match &app.context_menu {
        Some(m) => (m.selected, m.option_count()),
        None => {
            return no_effects();
        },
    };
    match kind {
        MouseKind::ScrollUp => {
            if sel > 0 {
                set_context_selected(app, sel - 1);
            }
            no_effects()
        },
        MouseKind::ScrollDown => {
            if sel < count && sel + 1 < count {
                set_context_selected(app, sel + 1);
            }
            no_effects()
        },
        MouseKind::LeftDown => {
            let menu = compute_context_menu_rect(screen, count);
            if point_in(col, row, menu) {
                match menu_option_at_exec(menu, row, count) {
                    Some(i) => {
                        set_context_selected(app, i);
                        execute_context_menu_action(app)
                    },
                    None => no_effects(),
                }
            } else {
                app.context_menu = None;
                no_effects()
            }
        },
        _ => no_effects(),
    }
}

/// The seek request of a click at column `col` of progress bar `bar`: made when a player is
/// active, a track is loaded and the bar has width.
pub open spec fn seek_click_effects(app: App, col: u16, bar: Area) -> Seq<EffectV> {
    match app.active_player {
        Some(p) => if app.now_playing is Some && bar.width > 0 {
            seq![EffectV::SeekAt(p@, col, bar.x, bar.width)]
        } else {
            Seq::empty()
        },
        None => Seq::empty(),
    }
}

/// The seek request of a click on a progress bar.
pub fn seek_click(app: &App, col: u16, bar: Area) -> (r: Effects)
    ensures
        effects_v(r) == seek_click_effects(*app, col, bar),
{
    match &app.active_player {
        Some(p) => if app.now_playing.is_some() && bar.width > 0 {
            one_effect(Effect::SeekAt(p.clone(), col, bar.x, bar.width))
        } else {
            no_effects()
        },
        None => no_effects(),
    }
}

/// The areas of the full-art screen, as drawn.
#[derive(Debug, Clone, Copy)]
pub struct FullArtAreas {
    pub image: Area,
    pub exit: Area,
    /// The playback buttons, in the order of `spec_control_button_action`.
    pub controls: [Area; 8],
    pub progress: Area,
    pub queue: Area,
    pub volume_icon: Option<Area>,
    pub player: Area,
}

/// The cell lies in the area, when there is one.
pub open spec fn hits_opt(col: u16, row: u16, a: Option<Area>) -> bool {
    match a {
        Some(v) => spec_point_in(col, row, v),
        None => false,
    }
}

fn hits_opt_exec(col: u16, row: u16, a: Option<Area>) -> (r: bool)
    ensures
        r == hits_opt(col, row, a),
{
    match a {
        Some(v) => point_in(col, row, v),
        None => false,
    }
}

/// What a left click on the full-art screen hits first.
#[derive(Debug, Clone, Copy, PartialEq, Eq, Structural)]
pub enum ArtClick {
    /// The picture: leave full-art mode, and remember that.
    Image,
    /// The exit hint of the footer: leave full-art mode for now.
    Exit,
    /// Playback button `i`.
    Control(usize),
    /// The progress bar.
    Seek,
    /// Elsewhere: the queue, the volume icon or the player name.
    Rest,
}

/// The part of the full-art screen a left click hits first.
pub open spec fn art_click_choice(col: u16, row: u16, a: FullArtAreas) -> ArtClick {
    if spec_point_in(col, row, a.image) {
        ArtClick::Image
    } else if spec_point_in(col, row, a.exit) {
        ArtClick::Exit
    } else if spec_first_hit(a.controls@, col, row) is Some {
        ArtClick::Control(spec_first_hit(a.controls@, col, row).unwrap() as usize)
    } else if spec_point_in(col, row, a.progress) {
        ArtClick::Seek
    } else {
        ArtClick::Rest
    }
}

fn art_click_exec(col: u16, row: u16, a: &FullArtAreas) -> (r: ArtClick)
    ensures
        r == art_click_choice(col, row, *a),
{
    if point_in(col, row, a.image) {
        ArtClick::Image
    } else if point_in(col, row, a.exit) {
        ArtClick::Exit
    } else {
        match first_hit(a.controls.as_slice(), col, row) {
            Some(i) => ArtClick::Control(i),
            None => if point_in(col, row, a.progress) { ArtClick::Seek } else { ArtClick::Rest },
        }
    }
}

/// The queue row (two terminal rows per track) under a click at `row` in the full-art queue
/// box `queue`, whose list starts at item `offset`.
pub open spec fn art_queue_index(queue: Area, row: u16, offset: usize) -> Option<int> {
    let top = queue.y + 1;
    let bot = queue.y + (if queue.height >= 1 { queue.height - 1 } else { 0 });
    if top <= row < bot { Some(offset + (row - top) / 2) } else { None }
}

/// A click in the full-art queue box: an existing track is selected and, when a player is
/// active, played.
pub open spec fn art_queue_step(old: App, col: u16, row: u16, queue: Area, offset: usize) -> (App, Seq<EffectV>) {
    if spec_point_in(col, row, queue) && art_queue_index(queue, row, offset) is Some
        && art_queue_index(queue, row, offset).unwrap() < old.queue@.len() {
        let idx = art_queue_index(queue, row, offset).unwrap() as usize;
        (App { main_selected: idx, ..old }, match old.active_player {
            Some(p) => seq![EffectV::Fire(Call::PlayTrackIndex(p@, idx))],
            None => Seq::empty(),
        })
    } else {
        (old, Seq::empty())
    }
}

fn set_main_selected(app: &mut App, idx: usize)
    ensures
        *final(app) == (App { main_selected: idx, ..*old(app) }),
{
    app.main_selected = idx;
}

fn art_queue_click(app: &mut App, col: u16, row: u16, queue: Area, offset: usize) -> (r: Effects)
    requires
        offset + u16::MAX <= usize::MAX,
    ensures
        *final(app) == art_queue_step(*old(app), col, row, queue, offset).0,
        effects_v(r) == art_queue_step(*old(app), col, row, queue, offset).1,
{
    if !point_in(col, row, queue) {
        return no_effects();
    }
    let top: u32 = queue.y as u32 + 1;
    let h: u32 = if queue.height >= 1 { queue.height as u32 - 1 } else { 0 };
    let bot: u32 = queue.y as u32 + h;
    if top <= row as u32 && (row as u32) < bot {
        let idx: usize = offset + ((row as u32 - top) / 2) as usize;
        if idx < app.queue.len() {
            set_main_selected(app, idx);
            match &app.active_player {
                Some(p) => one_effect(Effect::Fire(Call::PlayTrackIndex(p.clone(), idx))),
                None => no_effects(),
            }
        } else {
            no_effects()
        }
    } else {
        no_effects()
    }
}

/// The volume state of `app` with `effects` already sent.
pub open spec fn mute_state_after(app: App, effects: Seq<EffectV>) -> MuteState {
    (app.player_volumes@, app.muted_volumes@, app.volume_pending@, app.now_playing, effects)
}

/// The full-art screen after a click that missed the picture, the exit hint, the buttons and
/// the progress bar: the queue box first (see `art_queue_step`); then the volume icon mutes
/// or unmutes the active player, or the player name leaves full-art mode (remembered) for the
/// Players screen, first row, focus on the list.
pub open spec fn art_rest_post(
    old: App,
    new: App,
    effects: Seq<EffectV>,
    oldc: Config,
    newc: Config,
    save: bool,
    col: u16,
    row: u16,
    a: FullArtAreas,
    offset: usize,
    now: u64,
) -> bool {
    let step = art_queue_step(old, col, row, a.queue, offset);
    let mid = step.0;
    if hits_opt(col, row, a.volume_icon) {
        &&& match mid.active_player {
            Some(p) => holds_mute_state(mid, new, effects, mute_step(mute_state_after(mid, step.1), opt_v(mid.active_player), p@, now)),
            None => new == mid && effects == step.1,
        }
        &&& newc == oldc && !save
    } else if spec_point_in(col, row, a.player) {
        &&& new == (App {
            full_art_mode: false,
            main_view: MainView::Players,
            focus_sidebar: false,
            players_focus_global: false,
            main_selected: 0,
            ..mid
        })
        &&& newc == (Config { full_art_mode: false, ..oldc }) && save
        &&& effects == step.1
    } else {
        new == mid && effects == step.1 && newc == oldc && !save
    }
}

fn leave_art_for_players(app: &mut App)
    ensures
        *final(app) == (App {
            full_art_mode: false,
            main_view: MainView::Players,
            focus_sidebar: false,
            players_focus_global: false,
            main_selected: 0,
            ..*old(app)
        }),
{
    app.full_art_mode = false;
    app.main_view = MainView::Players;
    app.focus_sidebar = false;
    app.players_focus_global = false;
    app.main_selected = 0;
}

fn art_click_rest(app: &mut App, cfg: &mut Config, col: u16, row: u16, a: &FullArtAreas, offset: usize, now: u64) -> (r: (Effects, bool))
    requires
        offset + u16::MAX <= usize::MAX,
    ensures
        art_rest_post(*old(app), *final(app), effects_v(r.0), *old(cfg), *final(cfg), r.1, col, row, *a, offset, now),
{
    let ghost old_app = *app;
    let mut e1 = art_queue_click(app, col, row, a.queue, offset);
    let ghost mid = *app;
    let ghost e1v = effects_v(e1);
    if hits_opt_exec(col, row, a.volume_icon) {
        match app.active_pid() {
            Some(p) => {
                let mut e2 = toggle_mute_player(app, p.as_str(), now);
                let ghost e2v = effects_v(e2);
                let ghost b1 = e1;
                let ghost b2 = e2;
                e1.append(&mut e2);
                proof {
                    lemma_effects_v_append(b1, b2, e1);
                    let st = mute_step(mute_state_of(mid), opt_v(mid.active_player), p@, now);
                    let st2 = mute_step(mute_state_after(mid, e1v), opt_v(mid.active_player), p@, now);
                    assert(st2.4 =~= e1v + st.4);
                }
                (e1, false)
            },
            None => (e1, false),
        }
    } else if point_in(col, row, a.player) {
        leave_art_for_players(app);
        cfg.full_art_mode = false;
        (e1, true)
    } else {
        (e1, false)
    }
}

/// A left click on the full-art screen (see `art_click_choice`): the picture leaves
/// full-art mode and the setting is written; the exit hint leaves it for now; a button
/// does what its key does; the progress bar seeks; elsewhere see `art_rest_post`. The flag is
/// true when `cfg` changed and must be written.
pub open spec fn art_click_post(
    old: App,
    new: App,
    effects: Seq<EffectV>,
    oldc: Config,
    newc: Config,
    save: bool,
    col: u16,
    row: u16,
    a: FullArtAreas,
    offset: usize,
    now: u64,
) -> bool {
    match art_click_choice(col, row, a) {
        ArtClick::Image => new == (App { full_art_mode: false, ..old }) && newc == (Config { full_art_mode: false, ..oldc })
            && save && effects.len() == 0,
        ArtClick::Exit => new == (App { full_art_mode: false, ..old }) && newc == oldc && !save && effects.len() == 0,
        ArtClick::Control(b) => action_post(old, new, effects, spec_control_button_action(b), now) && newc == oldc && !save,
        ArtClick::Seek => new == old && effects == seek_click_effects(old, col, a.progress) && newc == oldc && !save,
        ArtClick::Rest => art_rest_post(old, new, effects, oldc, newc, save, col, row, a, offset, now),
    }
}

fn set_full_art(app: &mut App, on: bool)
    ensures
        *final(app) == (App { full_art_mode: on, ..*old(app) }),
{
    app.full_art_mode = on;
}

/// A left click on the full-art screen.
pub fn full_art_click(app: &mut App, cfg: &mut Config, col: u16, row: u16, a: &FullArtAreas, offset: usize, now: u64) -> (r: (Effects, bool))
    requires
        offset + u16::MAX <= usize::MAX,
    ensures
        art_click_post(*old(app), *final(app), effects_v(r.0), *old(cfg), *final(cfg), r.1, col, row, *a, offset, now),
{
    match art_click_exec(col, row, a) {
        ArtClick::Image => {
            set_full_art(app, false);
            cfg.full_art_mode = false;
            (no_effects(), true)
        },
        ArtClick::Exit => {
            set_full_art(app, false);
            (no_effects(), false)
        },
        ArtClick::Control(b) => {
            let action = map_control_button_to_action(b);
            let (_, effects) = handle_action(app, action, now);
            (effects, false)
        },
        ArtClick::Seek => (seek_click(app, col, a.progress), false),
        ArtClick::Rest => art_click_rest(app, cfg, col, row, a, offset, now),
    }
}

/// The wheel on the full-art screen: over the queue box it moves the selection up or down
/// within the queue; elsewhere it does nothing.
pub open spec fn art_scroll_post(old: App, new: App, up: bool, col: u16, row: u16, queue: Area) -> bool {
    if spec_point_in(col, row, queue) {
        if up {
            new == (App { main_selected: if old.main_selected > 0 { (old.main_selected - 1) as usize } else { 0 }, ..old })
        } else if old.main_selected + 1 < old.queue@.len() {
            new == (App { main_selected: (old.main_selected + 1) as usize, ..old })
        } else {
            new == old
        }
    } else {
        new == old
    }
}

/// The wheel on the full-art screen.
pub fn full_art_scroll(app: &mut App, up: bool, col: u16, row: u16, queue: Area)
    ensures
        art_scroll_post(*old(app), *final(app), up, col, row, queue),
{
    if point_in(col, row, queue) {
        if up {
            if app.main_selected > 0 {
                app.main_selected = app.main_selected - 1;
            }
        } else {
            let max: usize = if app.queue.len() > 0 { app.queue.len() - 1 } else { 0 };
            if app.main_selected < max {
                app.main_selected = app.main_selected + 1;
            }
        }
    }
}

/// A mouse event: its kind and the cell it happened on.
#[derive(Debug, Clone, Copy, PartialEq, Eq, Structural)]
pub struct MouseInput {
    pub kind: MouseKind,
    pub col: u16,
    pub row: u16,
}

/// The screen as drawn: every area a click can hit, for each overlay that may be open.
#[derive(Debug, Clone)]
pub struct MouseLayout {
    /// The whole terminal.
    pub screen: Area,
    pub sync_dialog: Area,
    pub sync_rows: Vec<Area>,
    pub sync_confirm: Area,
    pub sync_cancel: Area,
    pub clear_dialog: Area,
    pub clear_confirm: Area,
    pub clear_cancel: Area,
    pub quit_dialog: Area,
    pub quit_confirm: Area,
    pub quit_cancel: Area,
    pub delete_dialog: Area,
    pub delete_options: [Area; 5],
    pub config_dialog: Area,
    pub config_fields: Vec<Area>,
    pub config_save: Area,
    pub config_cancel: Area,
    pub full_art: FullArtAreas,
    pub panes: PaneAreas,
}

/// A mouse event. An open overlay takes every event, in this order of precedence: the sync
/// dialog, the clear-queue and quit confirmations, the delete dialog and the settings dialog
/// (each only acting on a left click), the context menu, full-art mode. Otherwise a right
/// click goes back, the wheel scrolls and a left click acts where it lands. The flag is true
/// when `cfg` changed and must be written; only clicks on list rows change the remembered
/// click.
#[verifier::opaque]
pub open spec fn mouse_post(
    old: App,
    new: App,
    effects: Seq<EffectV>,
    oldc: Config,
    newc: Config,
    save: bool,
    ev: MouseInput,
    l: MouseLayout,
    sidebar_offset: usize,
    main_offset: usize,
    last: Option<(u64, usize)>,
    last_new: Option<(u64, usize)>,
    now: u64,
) -> bool {
    let (col, row) = (ev.col, ev.row);
    let left = ev.kind == MouseKind::LeftDown;
    let idle = new == old && effects.len() == 0;
    let same_cfg = newc == oldc && !save;
    &&& !(old.sync_modal is None && !old.confirm_clear_queue && !old.confirm_quit && old.confirm_delete_queue_item is None
        && old.config_modal is None && old.context_menu is None && !old.full_art_mode && left) ==> last_new == last
    &&& if old.sync_modal is Some {
        same_cfg && last_new == last && if left {
            sync_click_post(old, new, effects, sync_click_choice(col, row, l.sync_dialog, l.sync_rows@, l.sync_confirm, l.sync_cancel))
        } else {
            idle
        }
    } else if old.confirm_clear_queue {
        same_cfg && if left {
            clear_queue_click_post(old, new, effects, col, row, l.clear_dialog, l.clear_confirm, l.clear_cancel)
        } else {
            idle
        }
    } else if old.confirm_quit {
        same_cfg && if left {
            quit_click_post(old, new, col, row, l.quit_dialog, l.quit_confirm, l.quit_cancel) && effects.len() == 0
        } else {
            idle
        }
    } else if old.confirm_delete_queue_item is Some {
        same_cfg && if left { delete_click_post(old, new, effects, col, row, l.delete_dialog, l.delete_options@) } else { idle }
    } else if old.config_modal is Some {
        if left {
            config_click_post(old, new, effects, oldc, newc, save,
                config_click_choice(col, row, l.config_dialog, l.config_fields@, l.config_save, l.config_cancel))
        } else {
            idle && same_cfg
        }
    } else if old.context_menu is Some {
        same_cfg && context_mouse_post(old, new, effects, ev.kind, col, row, l.screen)
    } else if old.full_art_mode {
        if left {
            art_click_post(old, new, effects, oldc, newc, save, col, row, l.full_art, main_offset, now)
        } else if ev.kind == MouseKind::ScrollUp || ev.kind == MouseKind::ScrollDown {
            same_cfg && effects.len() == 0 && art_scroll_post(old, new, ev.kind == MouseKind::ScrollUp, col, row, l.full_art.queue)
        } else {
            idle && same_cfg
        }
    } else {
        match ev.kind {
            MouseKind::RightDown => same_cfg && action_post(old, new, effects, Action::Back, now),
            MouseKind::LeftDown => main_click_post(old, new, effects, oldc, newc, save, col, row, l.panes,
                sidebar_offset, main_offset, last, last_new, now),
            MouseKind::ScrollUp => same_cfg && pane_scroll_post(old, new, effects, true, col, row, l.panes, now),
            MouseKind::ScrollDown => same_cfg && pane_scroll_post(old, new, effects, false, col, row, l.panes, now),
            MouseKind::Other => idle && same_cfg,
        }
    }
}

fn dialogs_mouse(app: &mut App, ev: MouseInput, l: &MouseLayout, cfg: &mut Config, sidebar_offset: usize, main_offset: usize,
    last: &mut Option<(u64, usize)>, now: u64) -> (r: (Effects, bool))
    requires
        old(app).sync_modal is Some || old(app).confirm_clear_queue || old(app).confirm_quit
            || old(app).confirm_delete_queue_item is Some,
        old(app).sync_modal is None && !old(app).confirm_clear_queue && !old(app).confirm_quit && ev.kind == MouseKind::LeftDown
            ==> (old(app).confirm_delete_queue_item matches Some(idx)
            ==> (spec_first_hit(l.delete_options@, ev.col, ev.row) == Some(1int) ==> idx <= old(app).queue@.len())),
    ensures
        mouse_post(*old(app), *final(app), effects_v(r.0), *old(cfg), *final(cfg), r.1, ev, *l, sidebar_offset, main_offset,
            *old(last), *final(last), now),
{
    proof {
        reveal(mouse_post);
    }
    let left = ev.kind == MouseKind::LeftDown;
    if !left {
        return (no_effects(), false);
    }
    if app.sync_modal.is_some() {
        (sync_modal_click(app, ev.col, ev.row, l.sync_dialog, &l.sync_rows, l.sync_confirm, l.sync_cancel), false)
    } else if app.confirm_clear_queue {
        (clear_queue_click(app, ev.col, ev.row, l.clear_dialog, l.clear_confirm, l.clear_cancel), false)
    } else if app.confirm_quit {
        quit_click(app, ev.col, ev.row, l.quit_dialog, l.quit_confirm, l.quit_cancel);
        (no_effects(), false)
    } else {
        (delete_queue_click(app, ev.col, ev.row, l.delete_dialog, &l.delete_options), false)
    }
}

fn menus_mouse(app: &mut App, ev: MouseInput, l: &MouseLayout, cfg: &mut Config, sidebar_offset: usize, main_offset: usize,
    last: &mut Option<(u64, usize)>, now: u64) -> (r: (Effects, bool))
    requires
        old(app).sync_modal is None && !old(app).confirm_clear_queue && !old(app).confirm_quit
            && old(app).confirm_delete_queue_item is None,
        old(app).config_modal is Some || old(app).context_menu is Some,
        old(app).config_modal matches Some(m) ==> m.image_protocol_idx < IMAGE_PROTOCOL_COUNT,
        area_wf(l.screen),
    ensures
        mouse_post(*old(app), *final(app), effects_v(r.0), *old(cfg), *final(cfg), r.1, ev, *l, sidebar_offset, main_offset,
            *old(last), *final(last), now),
{
    proof {
        reveal(mouse_post);
    }
    if app.config_modal.is_some() {
        if ev.kind == MouseKind::LeftDown {
            config_modal_click(app, ev.col, ev.row, l.config_dialog, &l.config_fields, l.config_save, l.config_cancel, cfg)
        } else {
            (no_effects(), false)
        }
    } else {
        (context_menu_mouse(app, ev.kind, ev.col, ev.row, l.screen), false)
    }
}

fn art_mouse(app: &mut App, ev: MouseInput, l: &MouseLayout, cfg: &mut Config, sidebar_offset: usize, main_offset: usize,
    last: &mut Option<(u64, usize)>, now: u64) -> (r: (Effects, bool))
    requires
        old(app).sync_modal is None && !old(app).confirm_clear_queue && !old(app).confirm_quit
            && old(app).confirm_delete_queue_item is None && old(app).config_modal is None && old(app).context_menu is None,
        old(app).full_art_mode,
        main_offset + u16::MAX <= usize::MAX,
    ensures
        mouse_post(*old(app), *final(app), effects_v(r.0), *old(cfg), *final(cfg), r.1, ev, *l, sidebar_offset, main_offset,
            *old(last), *final(last), now),
{
    proof {
        reveal(mouse_post);
    }
    match ev.kind {
        MouseKind::LeftDown => full_art_click(app, cfg, ev.col, ev.row, &l.full_art, main_offset, now),
        MouseKind::ScrollUp => {
            full_art_scroll(app, true, ev.col, ev.row, l.full_art.queue);
            (no_effects(), false)
        },
        MouseKind::ScrollDown => {
            full_art_scroll(app, false, ev.col, ev.row, l.full_art.queue);
            (no_effects(), false)
        },
        _ => (no_effects(), false),
    }
}

fn screen_mouse(app: &mut App, ev: MouseInput, l: &MouseLayout, cfg: &mut Config, sidebar_offset: usize, main_offset: usize,
    last: &mut Option<(u64, usize)>, now: u64) -> (r: (Effects, bool))
    requires
        old(app).sync_modal is None && !old(app).confirm_clear_queue && !old(app).confirm_quit
            && old(app).confirm_delete_queue_item is None && old(app).config_modal is None && old(app).context_menu is None,
        !old(app).full_art_mode,
        sidebar_offset + u16::MAX <= usize::MAX,
        main_offset + u16::MAX <= usize::MAX,
    ensures
        mouse_post(*old(app), *final(app), effects_v(r.0), *old(cfg), *final(cfg), r.1, ev, *l, sidebar_offset, main_offset,
            *old(last), *final(last), now),
{
    proof {
        reveal(mouse_post);
    }
    match ev.kind {
        MouseKind::RightDown => {
            let (_, effects) = handle_action(app, Action::Back, now);
            (effects, false)
        },
        MouseKind::LeftDown => main_click(app, cfg, ev.col, ev.row, &l.panes, sidebar_offset, main_offset, last, now),
        MouseKind::ScrollUp => (pane_scroll(app, true, ev.col, ev.row, &l.panes, now), false),
        MouseKind::ScrollDown => (pane_scroll(app, false, ev.col, ev.row, &l.panes, now), false),
        MouseKind::Other => (no_effects(), false),
    }
}

/// A mouse event (see `mouse_post`); `now` is the time in milliseconds, `last` the last
/// click on a list row (time, row), the offsets those of the sidebar and main lists as drawn.
pub fn handle_mouse_event(
    app: &mut App,
    ev: MouseInput,
    l: &MouseLayout,
    sidebar_offset: usize,
    main_offset: usize,
    last: &mut Option<(u64, usize)>,
    cfg: &mut Config,
    now: u64,
) -> (r: (Effects, bool))
    requires
        area_wf(l.screen),
        sidebar_offset + u16::MAX <= usize::MAX,
        main_offset + u16::MAX <= usize::MAX,
        old(app).config_modal matches Some(m) ==> m.image_protocol_idx < IMAGE_PROTOCOL_COUNT,
        old(app).confirm_delete_queue_item matches Some(idx)
            ==> (spec_first_hit(l.delete_options@, ev.col, ev.row) == Some(1int) ==> idx <= old(app).queue@.len()),
    ensures
        mouse_post(*old(app), *final(app), effects_v(r.0), *old(cfg), *final(cfg), r.1, ev, *l, sidebar_offset, main_offset,
            *old(last), *final(last), now),
{
    if app.sync_modal.is_some() || app.confirm_clear_queue || app.confirm_quit || app.confirm_delete_queue_item.is_some() {
        dialogs_mouse(app, ev, l, cfg, sidebar_offset, main_offset, last, now)
    } else if app.config_modal.is_some() || app.context_menu.is_some() {
        menus_mouse(app, ev, l, cfg, sidebar_offset, main_offset, last, now)
    } else if app.full_art_mode {
        art_mouse(app, ev, l, cfg, sidebar_offset, main_offset, last, now)
    } else {
        screen_mouse(app, ev, l, cfg, sidebar_offset, main_offset, last, now)
    }
}

} // verus!
