//! The mouse on the main screen: the now-playing bar, the sidebar and the main panel.
//!
//! As in `mouse`, the drawing code lays the screen out and hands its areas here.
use vstd::prelude::*;
use crate::actions::{action_post, handle_action, menu_opened, open_context_menu};
use crate::app::{App, MainView};
use crate::config::Config;
use crate::display::{PLAYERS_PWR_BTN_W, PLAYERS_SYNC_BTN_W, players_row_layout, spec_players_row_layout};
use crate::effects::{Call, Effect, EffectV, Effects, effects_v, lemma_effects_v_append, no_effects, one_effect, opt_v};
use crate::events::Action;
use crate::geometry::{Area, map_control_button_to_action, spec_control_button_action, is_double_click, point_in, search_scope_at_col, spec_is_double_click, spec_point_in, spec_search_scope_at_col};
use crate::mouse::{hits_opt, seek_click, seek_click_effects, spec_first_hit, first_hit};
use crate::navigation::{now_playing_index_ok, now_playing_queue_index};
use crate::sync::{open_sync_modal, open_sync_post};
use crate::utils::{is_main_item_playable, main_list_len, spec_is_main_item_playable, spec_main_list_len, spec_uses_two_row_layout, uses_two_row_layout};
use crate::volume::{
    holds_mute_state, mute_all, mute_state_of, mute_step, player_ids_v, power_all_effects, set_all_volumes_from_click,
    set_volume_from_click, set_volume_step, set_volumes, spec_click_volume, toggle_all_players_power, toggle_mute_all,
    toggle_mute_player,
};

verus! {

/// An area at (`x`, `y`) as a terminal rectangle makes it: its size cut to stay within the
/// 16-bit coordinates; an empty area when the corner itself lies outside them.
pub open spec fn area_at(x: int, y: int, w: int, h: int) -> Area {
    if 0 <= x <= u16::MAX && 0 <= y <= u16::MAX && w >= 0 && h >= 0 {
        Area {
            x: x as u16,
            y: y as u16,
            width: (if x + w <= u16::MAX { w } else { u16::MAX - x }) as u16,
            height: (if y + h <= u16::MAX { h } else { u16::MAX - y }) as u16,
        }
    } else {
        Area { x: 0, y: 0, width: 0, height: 0 }
    }
}

fn area_at_exec(x: u32, y: u32, w: u32, h: u32) -> (r: Area)
    ensures
        r == area_at(x as int, y as int, w as int, h as int),
{
    if x <= 65535 && y <= 65535 {
        let wmax: u32 = 65535 - x;
        let hmax: u32 = 65535 - y;
        let ww: u32 = if w <= wmax { w } else { wmax };
        let hh: u32 = if h <= hmax { h } else { hmax };
        Area { x: x as u16, y: y as u16, width: ww as u16, height: hh as u16 }
    } else {
        Area { x: 0, y: 0, width: 0, height: 0 }
    }
}

/// The list index shown at terminal `row` of a list drawn on rows `top..bot` from item
/// `offset`, `row_h` rows per item.
pub open spec fn index_at(row: u16, top: int, bot: int, offset: usize, row_h: int) -> Option<int> {
    if top <= row < bot { Some(offset + (row - top) / row_h) } else { None }
}

fn index_at_exec(row: u16, top: u32, bot: u32, offset: usize, row_h: u32) -> (r: Option<usize>)
    requires
        row_h > 0,
        offset + u16::MAX <= usize::MAX,
    ensures
        match r {
            Some(i) => index_at(row, top as int, bot as int, offset, row_h as int) == Some(i as int),
            None => index_at(row, top as int, bot as int, offset, row_h as int) is None,
        },
{
    if top <= row as u32 && (row as u32) < bot {
        let d: u32 = (row as u32 - top) / row_h;
        proof {
            vstd::arithmetic::div_mod::lemma_div_nonincreasing((row - top) as int, row_h as int);
        }
        Some(offset + d as usize)
    } else {
        None
    }
}

/// The last row inside a bordered box: the one above its bottom border.
pub open spec fn inner_bottom(a: Area) -> int {
    a.y + (if a.height >= 1 { a.height - 1 } else { 0 })
}

/// A click on list row `idx` of the main panel: the row is selected and the click remembered
/// (time, row); a double click, or one on a row that cannot be queued, opens the row as Enter
/// does; a single click on a playable row opens the context menu.
pub open spec fn pick_post(
    s: App,
    new: App,
    effects: Seq<EffectV>,
    idx: usize,
    last: Option<(u64, usize)>,
    last_new: Option<(u64, usize)>,
    now: u64,
) -> bool {
    let s2 = App { main_selected: idx, ..s };
    &&& last_new == Some((now, idx))
    &&& if spec_is_double_click(last, idx, now) || !spec_is_main_item_playable(s2) {
        action_post(s2, new, effects, Action::Select, now)
    } else {
        menu_opened(s2, new) && effects.len() == 0
    }
}

fn pick_row(app: &mut App, idx: usize, last: &mut Option<(u64, usize)>, now: u64) -> (r: Effects)
    ensures
        pick_post(*old(app), *final(app), effects_v(r), idx, *old(last), *final(last), now),
{
    let double = is_double_click(last, idx, now);
    *last = Some((now, idx));
    app.main_selected = idx;
    if double || !is_main_item_playable(app) {
        let (_, effects) = handle_action(app, Action::Select, now);
        effects
    } else {
        open_context_menu(app);
        no_effects()
    }
}

/// A click in the main panel of a list view: the list starts below the top border (two rows
/// per item where the view draws two); a click on an existing row picks it (see
/// `pick_post`).
pub open spec fn list_click_post(
    s: App,
    new: App,
    effects: Seq<EffectV>,
    row: u16,
    main: Area,
    offset: usize,
    last: Option<(u64, usize)>,
    last_new: Option<(u64, usize)>,
    now: u64,
) -> bool {
    let row_h: int = if spec_uses_two_row_layout(s.main_view) { 2 } else { 1 };
    match index_at(row, main.y + 1, inner_bottom(main), offset, row_h) {
        Some(i) => if i < spec_main_list_len(s) {
            pick_post(s, new, effects, i as usize, last, last_new, now)
        } else {
            new == s && effects.len() == 0 && last_new == last
        },
        None => new == s && effects.len() == 0 && last_new == last,
    }
}

fn list_click(app: &mut App, row: u16, main: Area, offset: usize, last: &mut Option<(u64, usize)>, now: u64) -> (r: Effects)
    requires
        offset + u16::MAX <= usize::MAX,
    ensures
        list_click_post(*old(app), *final(app), effects_v(r), row, main, offset, *old(last), *final(last), now),
{
    let row_h: u32 = if uses_two_row_layout(&app.main_view) { 2 } else { 1 };
    let bot: u32 = main.y as u32 + if main.height >= 1 { main.height as u32 - 1 } else { 0 };
    match index_at_exec(row, main.y as u32 + 1, bot, offset, row_h) {
        Some(i) => if i < main_list_len(app) {
            pick_row(app, i, last, now)
        } else {
            no_effects()
        },
        None => no_effects(),
    }
}

/// The search panel's query box: below the panel's top border, three rows high.
pub open spec fn search_input_area(main: Area) -> Area {
    area_at(main.x + 1, main.y + 1, if main.width >= 2 { main.width - 2 } else { 0 }, 3)
}

/// The search panel's scope tabs: the row below the query box.
pub open spec fn search_tabs_area(main: Area) -> Area {
    area_at(main.x + 1, main.y + 4, if main.width >= 2 { main.width - 2 } else { 0 }, 1)
}

/// A click in the main panel of the search view: the query box starts typing; a scope tab
/// selects that scope; a result row (two rows each, below the tabs) is picked (see
/// `pick_post`).
pub open spec fn search_click_post(
    s: App,
    new: App,
    effects: Seq<EffectV>,
    col: u16,
    row: u16,
    main: Area,
    offset: usize,
    last: Option<(u64, usize)>,
    last_new: Option<(u64, usize)>,
    now: u64,
) -> bool {
    if spec_point_in(col, row, search_input_area(main)) {
        new == (App { search_input_active: true, ..s }) && effects.len() == 0 && last_new == last
    } else if spec_point_in(col, row, search_tabs_area(main)) {
        &&& match spec_search_scope_at_col(col, search_tabs_area(main).x, s.use_nerd_icons) {
            Some(sc) => new == (App { search_scope: sc, ..s }),
            None => new == s,
        }
        &&& effects.len() == 0 && last_new == last
    } else {
        match index_at(row, main.y + 5, inner_bottom(main), offset, 2) {
            Some(i) => if i < s.search_results@.len() {
                pick_post(s, new, effects, i as usize, last, last_new, now)
            } else {
                new == s && effects.len() == 0 && last_new == last
            },
            None => new == s && effects.len() == 0 && last_new == last,
        }
    }
}

fn search_click(app: &mut App, col: u16, row: u16, main: Area, offset: usize, last: &mut Option<(u64, usize)>, now: u64) -> (r: Effects)
    requires
        offset + u16::MAX <= usize::MAX,
    ensures
        search_click_post(*old(app), *final(app), effects_v(r), col, row, main, offset, *old(last), *final(last), now),
{
    let w: u32 = if main.width >= 2 { main.width as u32 - 2 } else { 0 };
    let input = area_at_exec(main.x as u32 + 1, main.y as u32 + 1, w, 3);
    let tabs = area_at_exec(main.x as u32 + 1, main.y as u32 + 4, w, 1);
    if point_in(col, row, input) {
        app.search_input_active = true;
        no_effects()
    } else if point_in(col, row, tabs) {
        if let Some(sc) = search_scope_at_col(col, tabs.x, app.use_nerd_icons) {
            app.search_scope = sc;
        }
        no_effects()
    } else {
        let bot: u32 = main.y as u32 + if main.height >= 1 { main.height as u32 - 1 } else { 0 };
        match index_at_exec(row, main.y as u32 + 5, bot, offset, 2) {
            Some(i) => if i < app.search_results.len() {
                pick_row(app, i, last, now)
            } else {
                no_effects()
            },
            None => no_effects(),
        }
    }
}

/// The columns of a row of the Players panel `main`, as drawn: power button from `.0` to
/// `.1`, sync button from `.2` to `.3`, volume bar from `.3` to `.4`, volume text from `.4`
/// to `.5` (each start included, each end excluded).
pub open spec fn player_columns(main: Area, nerd: bool) -> (int, int, int, int, int, int) {
    let l = spec_players_row_layout(main.width, nerd);
    let pwr_start = main.x + 2;
    let pwr_end = pwr_start + PLAYERS_PWR_BTN_W;
    let sync_x = pwr_end + l.name_col_w + 3;
    let sync_end = sync_x + PLAYERS_SYNC_BTN_W;
    let bar_end = sync_end + l.bar_w;
    (pwr_start, pwr_end, sync_x, sync_end, bar_end, bar_end + l.vol_str_w)
}

/// The volume bar of a Players row at terminal `row`.
pub open spec fn player_bar(main: Area, nerd: bool, row: u16) -> Area {
    let c = player_columns(main, nerd);
    area_at(c.3, row as int, c.4 - c.3, 1)
}

/// A click on the all-players row (the first of the Players panel): the power button powers
/// every player on when any is off and all off otherwise; the box after it switches global
/// volume control; the volume bar sets every player's volume; the volume text mutes or
/// unmutes every player; elsewhere the row takes the focus.
#[verifier::opaque]
pub open spec fn global_row_post(s: App, new: App, effects: Seq<EffectV>, col: u16, row: u16, main: Area, now: u64) -> bool {
    let c = player_columns(main, s.use_nerd_icons);
    let active = opt_v(s.active_player);
    if c.0 <= col < c.1 {
        new == s && effects == power_all_effects(s)
    } else if c.1 < col < c.1 + 4 {
        new == (App { players_focus_global: true, global_volume_control: !s.global_volume_control, ..s }) && effects.len() == 0
    } else if c.3 <= col < c.4 {
        let bar = player_bar(main, s.use_nerd_icons, row);
        let focused = App { players_focus_global: true, ..s };
        if bar.width > 0 {
            holds_mute_state(focused, new, effects,
                set_volumes(mute_state_of(s), active, player_ids_v(s.players@), spec_click_volume(col, bar), now))
        } else {
            new == focused && effects.len() == 0
        }
    } else if c.4 <= col < c.5 {
        holds_mute_state(s, new, effects, mute_all(mute_state_of(s), active, player_ids_v(s.players@), now))
    } else {
        new == (App { players_focus_global: true, ..s }) && effects.len() == 0
    }
}

/// A click on the row of player `i` of the Players panel: the power button switches the
/// player on or off; the sync button opens its sync dialog; the volume bar sets its volume
/// and selects the row; the volume text mutes or unmutes it; elsewhere the row is selected
/// and opened as Enter does. Rows past the last player only take the selection from a bar
/// click.
pub open spec fn player_row_post(s: App, new: App, effects: Seq<EffectV>, col: u16, row: u16, main: Area, i: int, now: u64) -> bool {
    let c = player_columns(main, s.use_nerd_icons);
    let active = opt_v(s.active_player);
    let exists = i < s.players@.len();
    if c.0 <= col < c.1 {
        new == s && effects == (if exists {
            seq![EffectV::Fire(Call::SetPower(s.players@[i].playerid@, s.players@[i].power == 0))]
        } else {
            Seq::empty()
        })
    } else if c.2 <= col < c.3 {
        open_sync_post(s, new, i as usize) && effects.len() == 0
    } else if c.3 <= col < c.4 {
        player_bar_post(s, new, effects, col, row, main, i, now)
    } else if c.4 <= col < c.5 {
        if exists {
            holds_mute_state(s, new, effects, mute_step(mute_state_of(s), active, s.players@[i].playerid@, now))
        } else {
            new == s && effects.len() == 0
        }
    } else {
        player_open_post(s, new, effects, i, now)
    }
}

/// A click on the volume bar of the row of player `i`: its volume is set (see
/// `spec_click_volume`) and the row selected.
#[verifier::opaque]
pub open spec fn player_bar_post(s: App, new: App, effects: Seq<EffectV>, col: u16, row: u16, main: Area, i: int, now: u64) -> bool {
    let bar = player_bar(main, s.use_nerd_icons, row);
    let selected = App { players_focus_global: false, main_selected: i as usize, ..s };
    if i < s.players@.len() && bar.width > 0 {
        holds_mute_state(selected, new, effects,
            set_volume_step(mute_state_of(s), opt_v(s.active_player), s.players@[i].playerid@, spec_click_volume(col, bar), now))
    } else {
        new == selected && effects.len() == 0
    }
}

/// A click elsewhere on the row of player `i`: the row is selected and opened as Enter does.
#[verifier::opaque]
pub open spec fn player_open_post(s: App, new: App, effects: Seq<EffectV>, i: int, now: u64) -> bool {
    if i < s.players@.len() {
        action_post(App { players_focus_global: false, main_selected: i as usize, ..s }, new, effects, Action::Select, now)
    } else {
        new == s && effects.len() == 0
    }
}

/// A click in the Players panel: its first row below the border is the all-players row (see
/// `global_row_post`), the rows below it show the players from list item `offset` on (see
/// `player_row_post`).
pub open spec fn players_click_post(s: App, new: App, effects: Seq<EffectV>, col: u16, row: u16, main: Area, offset: usize, now: u64) -> bool {
    let top = main.y + 1;
    if row == top {
        global_row_post(s, new, effects, col, row, main, now)
    } else if top < row < inner_bottom(main) {
        player_row_post(s, new, effects, col, row, main, offset + (row - top - 1), now)
    } else {
        new == s && effects.len() == 0
    }
}

fn columns_exec(main: Area, nerd: bool) -> (r: (u32, u32, u32, u32, u32, u32))
    ensures
        (r.0 as int, r.1 as int, r.2 as int, r.3 as int, r.4 as int, r.5 as int) == player_columns(main, nerd),
{
    let l = players_row_layout(main.width, nerd);
    proof {
        assert(l.name_col_w <= u16::MAX && l.bar_w <= u16::MAX && l.vol_str_w <= 7);
    }
    let pwr_start: u32 = main.x as u32 + 2;
    let pwr_end: u32 = pwr_start + PLAYERS_PWR_BTN_W as u32;
    let sync_x: u32 = pwr_end + l.name_col_w as u32 + 3;
    let sync_end: u32 = sync_x + PLAYERS_SYNC_BTN_W as u32;
    let bar_end: u32 = sync_end + l.bar_w as u32;
    (pwr_start, pwr_end, sync_x, sync_end, bar_end, bar_end + l.vol_str_w as u32)
}

fn set_global_toggle(app: &mut App)
    ensures
        *final(app) == (App { players_focus_global: true, global_volume_control: !old(app).global_volume_control, ..*old(app) }),
{
    app.players_focus_global = true;
    app.global_volume_control = !app.global_volume_control;
}

fn focus_global_row(app: &mut App)
    ensures
        *final(app) == (App { players_focus_global: true, ..*old(app) }),
{
    app.players_focus_global = true;
}

fn global_bar_click(app: &mut App, col: u16, row: u16, main: Area, now: u64) -> (r: Effects)
    requires
        ({
            let c = player_columns(main, old(app).use_nerd_icons);
            !(c.0 <= col < c.1) && !(c.1 < col < c.1 + 4) && c.3 <= col < c.4
        }),
    ensures
        global_row_post(*old(app), *final(app), effects_v(r), col, row, main, now),
{
    proof {
        reveal(global_row_post);
    }
    let c = columns_exec(main, app.use_nerd_icons);
    let bar = area_at_exec(c.3, row as u32, c.4 - c.3, 1);
    focus_global_row(app);
    set_all_volumes_from_click(app, col, bar, now)
}

fn global_row_click(app: &mut App, col: u16, row: u16, main: Area, now: u64) -> (r: Effects)
    ensures
        global_row_post(*old(app), *final(app), effects_v(r), col, row, main, now),
{
    let c = columns_exec(main, app.use_nerd_icons);
    let x = col as u32;
    if c.3 <= x && x < c.4 && !(c.0 <= x && x < c.1) && !(c.1 < x && x < c.1 + 4) {
        return global_bar_click(app, col, row, main, now);
    }
    proof {
        reveal(global_row_post);
    }
    if c.0 <= x && x < c.1 {
        toggle_all_players_power(app)
    } else if c.1 < x && x < c.1 + 4 {
        set_global_toggle(app);
        no_effects()
    } else if c.4 <= x && x < c.5 {
        toggle_mute_all(app, now)
    } else {
        focus_global_row(app);
        no_effects()
    }
}

fn select_player_row(app: &mut App, i: usize)
    ensures
        *final(app) == (App { players_focus_global: false, main_selected: i, ..*old(app) }),
{
    app.players_focus_global = false;
    app.main_selected = i;
}

fn power_request(app: &App, i: usize) -> (r: Effects)
    ensures
        effects_v(r) == (if i < app.players@.len() {
            seq![EffectV::Fire(Call::SetPower(app.players@[i as int].playerid@, app.players@[i as int].power == 0))]
        } else {
            Seq::<EffectV>::empty()
        }),
{
    if i < app.players.len() {
        let p = &app.players[i];
        one_effect(Effect::Fire(Call::SetPower(p.playerid.clone(), p.power == 0)))
    } else {
        no_effects()
    }
}

fn player_bar_click(app: &mut App, col: u16, row: u16, main: Area, i: usize, now: u64) -> (r: Effects)
    ensures
        player_bar_post(*old(app), *final(app), effects_v(r), col, row, main, i as int, now),
{
    proof {
        reveal(player_bar_post);
    }
    let c = columns_exec(main, app.use_nerd_icons);
    let bar = area_at_exec(c.3, row as u32, c.4 - c.3, 1);
    if i < app.players.len() {
        let pid = app.players[i].playerid.clone();
        select_player_row(app, i);
        set_volume_from_click(app, col, bar, pid.as_str(), now)
    } else {
        select_player_row(app, i);
        no_effects()
    }
}

fn player_open_click(app: &mut App, i: usize, now: u64) -> (r: Effects)
    ensures
        player_open_post(*old(app), *final(app), effects_v(r), i as int, now),
{
    proof {
        reveal(player_open_post);
    }
    if i < app.players.len() {
        select_player_row(app, i);
        let (_, effects) = handle_action(app, Action::Select, now);
        effects
    } else {
        no_effects()
    }
}

fn player_row_click(app: &mut App, col: u16, row: u16, main: Area, i: usize, now: u64) -> (r: Effects)
    ensures
        player_row_post(*old(app), *final(app), effects_v(r), col, row, main, i as int, now),
{
    let c = columns_exec(main, app.use_nerd_icons);
    let x = col as u32;
    if c.0 <= x && x < c.1 {
        power_request(app, i)
    } else if c.2 <= x && x < c.3 {
        open_sync_modal(app, i);
        no_effects()
    } else if c.3 <= x && x < c.4 {
        player_bar_click(app, col, row, main, i, now)
    } else if c.4 <= x && x < c.5 {
        if i < app.players.len() {
            let pid = app.players[i].playerid.clone();
            toggle_mute_player(app, pid.as_str(), now)
        } else {
            no_effects()
        }
    } else {
        player_open_click(app, i, now)
    }
}

fn players_click(app: &mut App, col: u16, row: u16, main: Area, offset: usize, now: u64) -> (r: Effects)
    requires
        offset + u16::MAX <= usize::MAX,
    ensures
        players_click_post(*old(app), *final(app), effects_v(r), col, row, main, offset, now),
{
    let top: u32 = main.y as u32 + 1;
    let bot: u32 = main.y as u32 + if main.height >= 1 { main.height as u32 - 1 } else { 0 };
    let r32 = row as u32;
    if r32 == top {
        global_row_click(app, col, row, main, now)
    } else if top < r32 && r32 < bot {
        let i: usize = offset + (r32 - top - 1) as usize;
        player_row_click(app, col, row, main, i, now)
    } else {
        no_effects()
    }
}

fn set_focus_sidebar(app: &mut App, on: bool)
    ensures
        *final(app) == (App { focus_sidebar: on, ..*old(app) }),
{
    app.focus_sidebar = on;
}

/// A click in the main panel: the panel takes the focus; then the Players view, the search
/// view and the list views each take the click as their `*_click_post` says.
pub open spec fn main_panel_click_post(
    s: App,
    new: App,
    effects: Seq<EffectV>,
    col: u16,
    row: u16,
    main: Area,
    offset: usize,
    last: Option<(u64, usize)>,
    last_new: Option<(u64, usize)>,
    now: u64,
) -> bool {
    let f = App { focus_sidebar: false, ..s };
    if f.main_view is Players {
        players_click_post(f, new, effects, col, row, main, offset, now) && last_new == last
    } else if f.main_view is Search {
        search_click_post(f, new, effects, col, row, main, offset, last, last_new, now)
    } else {
        list_click_post(f, new, effects, row, main, offset, last, last_new, now)
    }
}

fn main_panel_click(app: &mut App, col: u16, row: u16, main: Area, offset: usize, last: &mut Option<(u64, usize)>, now: u64) -> (r: Effects)
    requires
        offset + u16::MAX <= usize::MAX,
    ensures
        main_panel_click_post(*old(app), *final(app), effects_v(r), col, row, main, offset, *old(last), *final(last), now),
{
    set_focus_sidebar(app, false);
    if matches!(app.main_view, MainView::Players) {
        players_click(app, col, row, main, offset, now)
    } else if matches!(app.main_view, MainView::Search) {
        search_click(app, col, row, main, offset, last, now)
    } else {
        list_click(app, row, main, offset, last, now)
    }
}

/// A click in the sidebar: it takes the focus, and a click on an entry selects and opens it
/// as Enter does.
pub open spec fn sidebar_click_post(s: App, new: App, effects: Seq<EffectV>, row: u16, sidebar: Area, offset: usize, now: u64) -> bool {
    let f = App { focus_sidebar: true, ..s };
    match index_at(row, sidebar.y + 1, inner_bottom(sidebar), offset, 1) {
        Some(i) => if i < f.sidebar_items@.len() {
            action_post(App { sidebar_selected: i as usize, ..f }, new, effects, Action::Select, now)
        } else {
            new == f && effects.len() == 0
        },
        None => new == f && effects.len() == 0,
    }
}

fn sidebar_click(app: &mut App, row: u16, sidebar: Area, offset: usize, now: u64) -> (r: Effects)
    requires
        offset + u16::MAX <= usize::MAX,
    ensures
        sidebar_click_post(*old(app), *final(app), effects_v(r), row, sidebar, offset, now),
{
    set_focus_sidebar(app, true);
    let bot: u32 = sidebar.y as u32 + if sidebar.height >= 1 { sidebar.height as u32 - 1 } else { 0 };
    match index_at_exec(row, sidebar.y as u32 + 1, bot, offset, 1) {
        Some(i) => if i < app.sidebar_items.len() {
            app.sidebar_selected = i;
            let (_, effects) = handle_action(app, Action::Select, now);
            effects
        } else {
            no_effects()
        },
        None => no_effects(),
    }
}

/// The areas of the main screen, as drawn.
#[derive(Debug, Clone, Copy)]
pub struct PaneAreas {
    pub sidebar: Area,
    pub main: Area,
    /// The playback buttons of the now-playing bar, in the order of
    /// `spec_control_button_action`.
    pub controls: [Area; 8],
    /// The progress bar of the now-playing bar.
    pub progress: Area,
    /// The cover art of the now-playing bar.
    pub art: Area,
    /// The volume icon in the now-playing bar's title, when shown.
    pub volume_icon: Option<Area>,
    /// The title row of the now-playing bar.
    pub title: Area,
    /// The row of the playing track's title.
    pub now_playing_title: Area,
    /// The title of the sidebar.
    pub nav_title: Area,
}

/// What a left click hits after the now-playing bar's buttons, progress bar and art had their
/// turn.
#[derive(Debug, Clone, Copy, PartialEq, Eq, Structural)]
pub enum PaneClick {
    VolumeIcon,
    Title,
    NowPlayingTitle,
    NavTitle,
    Sidebar,
    Main,
    Nothing,
}

/// The part of the screen a left click hits, checked in this order: the volume icon, the
/// bar's title, the playing title (while something plays), the sidebar's title and the
/// sidebar (outside full-art mode), the main panel.
pub open spec fn pane_click_choice(s: App, col: u16, row: u16, a: PaneAreas) -> PaneClick {
    if hits_opt(col, row, a.volume_icon) {
        PaneClick::VolumeIcon
    } else if spec_point_in(col, row, a.title) {
        PaneClick::Title
    } else if spec_point_in(col, row, a.now_playing_title) && s.now_playing is Some {
        PaneClick::NowPlayingTitle
    } else if !s.full_art_mode && spec_point_in(col, row, a.nav_title) {
        PaneClick::NavTitle
    } else if !s.full_art_mode && spec_point_in(col, row, a.sidebar) {
        PaneClick::Sidebar
    } else if spec_point_in(col, row, a.main) {
        PaneClick::Main
    } else {
        PaneClick::Nothing
    }
}

fn pane_click_exec(s: &App, col: u16, row: u16, a: &PaneAreas) -> (r: PaneClick)
    ensures
        r == pane_click_choice(*s, col, row, *a),
{
    let vol = match a.volume_icon {
        Some(v) => point_in(col, row, v),
        None => false,
    };
    if vol {
        PaneClick::VolumeIcon
    } else if point_in(col, row, a.title) {
        PaneClick::Title
    } else if point_in(col, row, a.now_playing_title) && s.now_playing.is_some() {
        PaneClick::NowPlayingTitle
    } else if !s.full_art_mode && point_in(col, row, a.nav_title) {
        PaneClick::NavTitle
    } else if !s.full_art_mode && point_in(col, row, a.sidebar) {
        PaneClick::Sidebar
    } else if point_in(col, row, a.main) {
        PaneClick::Main
    } else {
        PaneClick::Nothing
    }
}

/// A left click on the main screen once the now-playing bar's buttons, progress bar and art
/// had their turn (see `pane_click_choice`): the volume icon mutes or unmutes the active
/// player; the bar's title shows the Players screen (first row, focus on the list); the
/// playing title shows the queue with the playing track selected; the sidebar's title asks
/// whether to quit (Cancel selected); the sidebar and the main panel take the click as their
/// `*_click_post` says. Only clicks on list rows of the main panel change the remembered
/// click.
pub open spec fn pane_click_post(
    s: App,
    new: App,
    effects: Seq<EffectV>,
    col: u16,
    row: u16,
    a: PaneAreas,
    sidebar_offset: usize,
    main_offset: usize,
    last: Option<(u64, usize)>,
    last_new: Option<(u64, usize)>,
    now: u64,
) -> bool {
    match pane_click_choice(s, col, row, a) {
        PaneClick::VolumeIcon => last_new == last && match s.active_player {
            Some(p) => holds_mute_state(s, new, effects, mute_step(mute_state_of(s), opt_v(s.active_player), p@, now)),
            None => new == s && effects.len() == 0,
        },
        PaneClick::Title => last_new == last && effects.len() == 0 && new == (App {
            main_view: MainView::Players,
            focus_sidebar: false,
            players_focus_global: false,
            main_selected: 0,
            ..s
        }),
        PaneClick::NowPlayingTitle => {
            &&& last_new == last && effects.len() == 0
            &&& now_playing_index_ok(s, new.main_selected)
            &&& if s.main_view is Queue {
                new == (App { main_selected: new.main_selected, ..s })
            } else {
                new == (App { main_view: MainView::Queue, focus_sidebar: false, main_selected: new.main_selected, ..s })
            }
        },
        PaneClick::NavTitle => last_new == last && effects.len() == 0
            && new == (App { confirm_quit: true, quit_selected_button: 1, ..s }),
        PaneClick::Sidebar => last_new == last && sidebar_click_post(s, new, effects, row, a.sidebar, sidebar_offset, now),
        PaneClick::Main => main_panel_click_post(s, new, effects, col, row, a.main, main_offset, last, last_new, now),
        PaneClick::Nothing => new == s && effects.len() == 0 && last_new == last,
    }
}

fn show_players(app: &mut App)
    ensures
        *final(app) == (App {
            main_view: MainView::Players,
            focus_sidebar: false,
            players_focus_global: false,
            main_selected: 0,
            ..*old(app)
        }),
{
    app.main_view = MainView::Players;
    app.focus_sidebar = false;
    app.players_focus_global = false;
    app.main_selected = 0;
}

fn show_playing_in_queue(app: &mut App)
    ensures
        now_playing_index_ok(*old(app), final(app).main_selected),
        if old(app).main_view is Queue {
            *final(app) == (App { main_selected: final(app).main_selected, ..*old(app) })
        } else {
            *final(app) == (App { main_view: MainView::Queue, focus_sidebar: false, main_selected: final(app).main_selected, ..*old(app) })
        },
{
    let idx = now_playing_queue_index(app);
    if !matches!(app.main_view, MainView::Queue) {
        app.main_view = MainView::Queue;
        app.focus_sidebar = false;
    }
    app.main_selected = idx;
}

fn ask_quit(app: &mut App)
    ensures
        *final(app) == (App { confirm_quit: true, quit_selected_button: 1, ..*old(app) }),
{
    app.confirm_quit = true;
    app.quit_selected_button = 1;
}

/// A left click on the main screen after the now-playing bar's controls had their turn.
pub fn pane_click(
    app: &mut App,
    col: u16,
    row: u16,
    a: &PaneAreas,
    sidebar_offset: usize,
    main_offset: usize,
    last: &mut Option<(u64, usize)>,
    now: u64,
) -> (r: Effects)
    requires
        sidebar_offset + u16::MAX <= usize::MAX,
        main_offset + u16::MAX <= usize::MAX,
    ensures
        pane_click_post(*old(app), *final(app), effects_v(r), col, row, *a, sidebar_offset, main_offset, *old(last), *final(last), now),
{
    match pane_click_exec(app, col, row, a) {
        PaneClick::VolumeIcon => match app.active_pid() {
            Some(p) => toggle_mute_player(app, p.as_str(), now),
            None => no_effects(),
        },
        PaneClick::Title => {
            show_players(app);
            no_effects()
        },
        PaneClick::NowPlayingTitle => {
            show_playing_in_queue(app);
            no_effects()
        },
        PaneClick::NavTitle => {
            ask_quit(app);
            no_effects()
        },
        PaneClick::Sidebar => sidebar_click(app, row, a.sidebar, sidebar_offset, now),
        PaneClick::Main => main_panel_click(app, col, row, a.main, main_offset, last, now),
        PaneClick::Nothing => no_effects(),
    }
}

/// What a left click on the now-playing bar's controls hits.
#[derive(Debug, Clone, Copy, PartialEq, Eq, Structural)]
pub enum BarClick {
    /// Playback button `i`.
    Control(usize),
    /// The progress bar.
    Seek,
    /// The cover art, while something plays.
    Art,
    Other,
}

/// The control of the now-playing bar a left click hits first.
pub open spec fn bar_click_choice(s: App, col: u16, row: u16, a: PaneAreas) -> BarClick {
    if spec_first_hit(a.controls@, col, row) is Some {
        BarClick::Control(spec_first_hit(a.controls@, col, row).unwrap() as usize)
    } else if spec_point_in(col, row, a.progress) {
        BarClick::Seek
    } else if spec_point_in(col, row, a.art) && s.now_playing is Some {
        BarClick::Art
    } else {
        BarClick::Other
    }
}

/// The now-playing bar's part of a left click (see `bar_click_choice`): a button does what
/// its key does; the progress bar seeks; the cover art enters full-art mode on the playing
/// track, and the setting is written. The flag is true when `cfg` changed and must be
/// written.
pub open spec fn bar_click_post(
    old: App,
    new: App,
    effects: Seq<EffectV>,
    oldc: Config,
    newc: Config,
    save: bool,
    col: u16,
    row: u16,
    a: PaneAreas,
    now: u64,
) -> bool {
    match bar_click_choice(old, col, row, a) {
        BarClick::Control(b) => action_post(old, new, effects, spec_control_button_action(b), now) && newc == oldc && !save,
        BarClick::Seek => new == old && effects == seek_click_effects(old, col, a.progress) && newc == oldc && !save,
        BarClick::Art => {
            &&& new == (App { full_art_mode: true, main_selected: new.main_selected, ..old })
            &&& now_playing_index_ok(old, new.main_selected)
            &&& newc == (Config { full_art_mode: true, ..oldc }) && save
            &&& effects.len() == 0
        },
        BarClick::Other => new == old && effects.len() == 0 && newc == oldc && !save,
    }
}

fn enter_full_art(app: &mut App)
    ensures
        *final(app) == (App { full_art_mode: true, main_selected: final(app).main_selected, ..*old(app) }),
        now_playing_index_ok(*old(app), final(app).main_selected),
{
    let idx = now_playing_queue_index(app);
    app.full_art_mode = true;
    app.main_selected = idx;
}

/// The now-playing bar's part of a left click.
pub fn bar_click(app: &mut App, cfg: &mut Config, col: u16, row: u16, a: &PaneAreas, now: u64) -> (r: (Effects, bool))
    ensures
        bar_click_post(*old(app), *final(app), effects_v(r.0), *old(cfg), *final(cfg), r.1, col, row, *a, now),
{
    match first_hit(a.controls.as_slice(), col, row) {
        Some(b) => {
            let (_, effects) = handle_action(app, map_control_button_to_action(b), now);
            (effects, false)
        },
        None => if point_in(col, row, a.progress) {
            (seek_click(app, col, a.progress), false)
        } else if point_in(col, row, a.art) && app.now_playing.is_some() {
            enter_full_art(app);
            cfg.full_art_mode = true;
            (no_effects(), true)
        } else {
            (no_effects(), false)
        },
    }
}

/// A left click on the main screen: the now-playing bar's controls first (see
/// `bar_click_post`), then the rest of the screen on the state they left (see
/// `pane_click_post`); the requests of both, in that order.
pub open spec fn main_click_post(
    old: App,
    new: App,
    effects: Seq<EffectV>,
    oldc: Config,
    newc: Config,
    save: bool,
    col: u16,
    row: u16,
    a: PaneAreas,
    sidebar_offset: usize,
    main_offset: usize,
    last: Option<(u64, usize)>,
    last_new: Option<(u64, usize)>,
    now: u64,
) -> bool {
    exists|mid: App, e1: Seq<EffectV>, e2: Seq<EffectV>|
        #![trigger bar_click_post(old, mid, e1, oldc, newc, save, col, row, a, now),
            pane_click_post(mid, new, e2, col, row, a, sidebar_offset, main_offset, last, last_new, now)]
        bar_click_post(old, mid, e1, oldc, newc, save, col, row, a, now)
        && pane_click_post(mid, new, e2, col, row, a, sidebar_offset, main_offset, last, last_new, now)
        && effects == e1 + e2
}

/// A left click on the main screen (see `main_click_post`).
pub fn main_click(
    app: &mut App,
    cfg: &mut Config,
    col: u16,
    row: u16,
    a: &PaneAreas,
    sidebar_offset: usize,
    main_offset: usize,
    last: &mut Option<(u64, usize)>,
    now: u64,
) -> (r: (Effects, bool))
    requires
        sidebar_offset + u16::MAX <= usize::MAX,
        main_offset + u16::MAX <= usize::MAX,
    ensures
        main_click_post(*old(app), *final(app), effects_v(r.0), *old(cfg), *final(cfg), r.1, col, row, *a,
            sidebar_offset, main_offset, *old(last), *final(last), now),
{
    let ghost a0 = *app;
    let ghost c0 = *cfg;
    let ghost l0 = *last;
    let (mut e1, save) = bar_click(app, cfg, col, row, a, now);
    let ghost mid = *app;
    let ghost e1v = effects_v(e1);
    let mut e2 = pane_click(app, col, row, a, sidebar_offset, main_offset, last, now);
    let ghost e2v = effects_v(e2);
    let ghost b1 = e1;
    let ghost b2 = e2;
    e1.append(&mut e2);
    proof {
        lemma_effects_v_append(b1, b2, e1);
        assert(bar_click_post(a0, mid, e1v, c0, *cfg, save, col, row, *a, now));
        assert(pane_click_post(mid, *app, e2v, col, row, *a, sidebar_offset, main_offset, l0, *last, now));
    }
    (e1, save)
}

/// The wheel on the main screen: over the sidebar it focuses the sidebar, over the main panel
/// the panel; then the selection moves up or down as the arrow keys move it.
pub open spec fn pane_scroll_post(old: App, new: App, effects: Seq<EffectV>, up: bool, col: u16, row: u16, a: PaneAreas, now: u64) -> bool {
    let f = if spec_point_in(col, row, a.sidebar) {
        App { focus_sidebar: true, ..old }
    } else if spec_point_in(col, row, a.main) {
        App { focus_sidebar: false, ..old }
    } else {
        old
    };
    action_post(f, new, effects, if up { Action::NavUp } else { Action::NavDown }, now)
}

/// The wheel on the main screen.
pub fn pane_scroll(app: &mut App, up: bool, col: u16, row: u16, a: &PaneAreas, now: u64) -> (r: Effects)
    ensures
        pane_scroll_post(*old(app), *final(app), effects_v(r), up, col, row, *a, now),
{
    if point_in(col, row, a.sidebar) {
        set_focus_sidebar(app, true);
    } else if point_in(col, row, a.main) {
        set_focus_sidebar(app, false);
    }
    let (_, effects) = handle_action(app, if up { Action::NavUp } else { Action::NavDown }, now);
    effects
}

} // verus!
