//! Screen areas and mouse hit-testing.
use vstd::prelude::*;
use crate::app::SearchScope;
use crate::events::Action;
use ratatui::layout;

verus! {

/// A rectangle of terminal cells.
#[derive(Debug, Clone, Copy, PartialEq, Eq, Structural)]
pub struct Area {
    pub x: u16,
    pub y: u16,
    pub width: u16,
    pub height: u16,
}

/// The area fits in the 16-bit cell coordinates (as every terminal area does).
pub open spec fn area_wf(a: Area) -> bool {
    a.x + a.width <= u16::MAX && a.y + a.height <= u16::MAX
}

/// An area at (`x`, `y`), its size cut so that it stays within the coordinates.
pub fn area_new(x: u16, y: u16, width: u16, height: u16) -> (r: Area)
    ensures
        r.x == x,
        r.y == y,
        r.width == (if x + width <= u16::MAX { width as int } else { u16::MAX - x }),
        r.height == (if y + height <= u16::MAX { height as int } else { u16::MAX - y }),
        area_wf(r),
{
    let w: u16 = if width <= u16::MAX - x { width } else { u16::MAX - x };
    let h: u16 = if height <= u16::MAX - y { height } else { u16::MAX - y };
    Area { x, y, width: w, height: h }
}

/// The cell (`col`, `row`) lies in `area`.
pub open spec fn spec_point_in(col: u16, row: u16, a: Area) -> bool {
    a.x <= col < a.x + a.width && a.y <= row < a.y + a.height
}

/// Whether the cell (`col`, `row`) lies in `area`.
pub fn point_in(col: u16, row: u16, area: Area) -> (r: bool)
    ensures
        r == spec_point_in(col, row, area),
{
    let right: u32 = area.x as u32 + area.width as u32;
    let bottom: u32 = area.y as u32 + area.height as u32;
    col >= area.x && (col as u32) < right && row >= area.y && (row as u32) < bottom
}

/// The list index shown at terminal `row`, for a list drawn on rows `top..bot` from item
/// `offset`, `row_h` rows per item; `None` outside the list.
pub open spec fn spec_list_index_at_row(row: u16, top: u16, bot: u16, offset: usize, row_h: u16) -> Option<int> {
    if top <= row < bot { Some(offset + (row - top) / (row_h as int)) } else { None }
}

/// The list index at a clicked row.
pub fn list_index_at_row(row: u16, top: u16, bot: u16, offset: usize, row_h: u16) -> (r: Option<usize>)
    requires
        row_h > 0,
        offset + u16::MAX <= usize::MAX,
    ensures
        match r {
            Some(i) => spec_list_index_at_row(row, top, bot, offset, row_h) == Some(i as int),
            None => spec_list_index_at_row(row, top, bot, offset, row_h) is None,
        },
{
    if row >= top && row < bot {
        let n: usize = (row - top) as usize;
        let d = n / (row_h as usize);
        proof {
            vstd::arithmetic::div_mod::lemma_div_nonincreasing(n as int, row_h as int);
        }
        Some(offset + d)
    } else {
        None
    }
}

/// A box `width` by `height` centred in `area`, no larger than it.
pub open spec fn spec_centered_rect_abs(width: u16, height: u16, a: Area) -> Area {
    let dw: int = if a.width > width { a.width - width } else { 0 };
    let dh: int = if a.height > height { a.height - height } else { 0 };
    Area {
        x: (a.x + dw / 2) as u16,
        y: (a.y + dh / 2) as u16,
        width: if width < a.width { width } else { a.width },
        height: if height < a.height { height } else { a.height },
    }
}

/// A box `width` by `height` centred in `area`.
pub fn centered_rect_abs(width: u16, height: u16, area: Area) -> (r: Area)
    requires
        area_wf(area),
    ensures
        r == spec_centered_rect_abs(width, height, area),
        area_wf(r),
{
    let dw: u16 = if area.width > width { area.width - width } else { 0 };
    let dh: u16 = if area.height > height { area.height - height } else { 0 };
    let x = area.x + dw / 2;
    let y = area.y + dh / 2;
    let w = if width < area.width { width } else { area.width };
    let h = if height < area.height { height } else { area.height };
    Area { x, y, width: w, height: h }
}

/// The context menu box for `option_count` options: 44 cells wide, two rows more than the
/// options (the row count taken modulo 2^16, as the terminal coordinates are).
pub fn compute_context_menu_rect(area: Area, option_count: usize) -> (r: Area)
    requires
        area_wf(area),
        option_count + 2 <= u16::MAX,
    ensures
        r == spec_centered_rect_abs(44, (option_count + 2) as u16, area),
{
    centered_rect_abs(44, (option_count + 2) as u16, area)
}

/// The scope tab of the search panel under column `col` (the tab bar starts at `tab_x`):
/// tabs "My Music", "Radios", "Apps", "All" each followed by a three-cell separator (two
/// cells wider each with Nerd icons); a separator belongs to the tab before it; columns past
/// the last tab select All; columns before the bar select nothing.
pub open spec fn spec_search_scope_at_col(col: u16, tab_x: u16, nerd: bool) -> Option<SearchScope> {
    if col < tab_x {
        None
    } else {
        let rel = col - tab_x;
        let extra: int = if nerd { 2 } else { 0 };
        let e1 = extra + 8 + 3;
        let e2 = e1 + extra + 6 + 3;
        let e3 = e2 + extra + 4 + 3;
        if rel < e1 {
            Some(SearchScope::MyMusic)
        } else if rel < e2 {
            Some(SearchScope::Radios)
        } else if rel < e3 {
            Some(SearchScope::Apps)
        } else {
            Some(SearchScope::All)
        }
    }
}

/// The scope tab under a clicked column.
pub fn search_scope_at_col(col: u16, tab_x: u16, use_nerd_icons: bool) -> (r: Option<SearchScope>)
    ensures
        r == spec_search_scope_at_col(col, tab_x, use_nerd_icons),
{
    if col < tab_x {
        return None;
    }
    let rel = (col - tab_x) as usize;
    let extra: usize = if use_nerd_icons { 2 } else { 0 };
    let sep: usize = 3;
    let e1 = extra + 8 + sep;
    let e2 = e1 + extra + 6 + sep;
    let e3 = e2 + extra + 4 + sep;
    if rel < e1 {
        Some(SearchScope::MyMusic)
    } else if rel < e2 {
        Some(SearchScope::Radios)
    } else if rel < e3 {
        Some(SearchScope::Apps)
    } else {
        Some(SearchScope::All)
    }
}

/// The action of control button `btn_idx` of the Now Playing panel: previous, play/pause,
/// stop, next, shuffle, repeat, volume down, and volume up for any later one.
pub open spec fn spec_control_button_action(btn_idx: usize) -> Action {
    if btn_idx == 0 {
        Action::Prev
    } else if btn_idx == 1 {
        Action::PlayPause
    } else if btn_idx == 2 {
        Action::Stop
    } else if btn_idx == 3 {
        Action::Next
    } else if btn_idx == 4 {
        Action::ToggleShuffle
    } else if btn_idx == 5 {
        Action::ToggleRepeat
    } else if btn_idx == 6 {
        Action::VolumeDown
    } else {
        Action::VolumeUp
    }
}

/// The action of a clicked control button.
pub fn map_control_button_to_action(btn_idx: usize) -> (r: Action)
    ensures
        r == spec_control_button_action(btn_idx),
{
    if btn_idx == 0 {
        Action::Prev
    } else if btn_idx == 1 {
        Action::PlayPause
    } else if btn_idx == 2 {
        Action::Stop
    } else if btn_idx == 3 {
        Action::Next
    } else if btn_idx == 4 {
        Action::ToggleShuffle
    } else if btn_idx == 5 {
        Action::ToggleRepeat
    } else if btn_idx == 6 {
        Action::VolumeDown
    } else {
        Action::VolumeUp
    }
}

/// Longest gap (ms) between the two clicks of a double click.
pub const DOUBLE_CLICK_MS: u64 = 500;

/// A click on row `idx` at time `now` completes a double click: the last click (time, row)
/// was on the same row less than the double-click time before.
pub open spec fn spec_is_double_click(last: Option<(u64, usize)>, idx: usize, now: u64) -> bool {
    match last {
        Some((t, i)) => i == idx && (if now > t { now - t } else { 0 }) < DOUBLE_CLICK_MS,
        None => false,
    }
}

/// Whether a click completes a double click.
pub fn is_double_click(last: &Option<(u64, usize)>, idx: usize, now: u64) -> (r: bool)
    ensures
        r == spec_is_double_click(*last, idx, now),
{
    match last {
        Some((t, i)) => {
            let elapsed: u64 = if now > *t { now - *t } else { 0 };
            *i == idx && elapsed < DOUBLE_CLICK_MS
        },
        None => false,
    }
}

/// The column of playback button `i` in a row starting at `x`: buttons three cells wide
/// with a one-cell gap, in groups of four (previous, play, stop, next), two (shuffle,
/// repeat) and two (volume down, volume up), two more cells between groups.
pub open spec fn control_x(x: int, i: int) -> int {
    if i < 4 {
        x + i * 4
    } else if i < 6 {
        x + 18 + (i - 4) * 4
    } else {
        x + 28 + (i - 6) * 4
    }
}

fn button_at(x: u16, y: u16, dx: u16) -> (a: Area)
    requires
        x + dx <= u16::MAX,
    ensures
        a == (Area { x: (x + dx) as u16, y, width: 3, height: 1 }),
{
    Area { x: x + dx, y, width: 3, height: 1 }
}

/// The eight playback buttons of a controls row (see `control_x`), each one row high.
pub fn control_button_areas(row: Area) -> (r: [Area; 8])
    requires
        row.x + 35 <= u16::MAX,
    ensures
        forall|i: int| 0 <= i < 8 ==> #[trigger] r@[i] == (Area {
            x: control_x(row.x as int, i) as u16,
            y: row.y,
            width: 3,
            height: 1,
        }),
{
    let x = row.x;
    let y = row.y;
    let r = [
        button_at(x, y, 0), button_at(x, y, 4), button_at(x, y, 8), button_at(x, y, 12),
        button_at(x, y, 18), button_at(x, y, 22), button_at(x, y, 28), button_at(x, y, 32),
    ];
    assert(forall|i: int| 0 <= i < 8 ==> #[trigger] r@[i] == (Area {
        x: control_x(row.x as int, i) as u16,
        y: row.y,
        width: 3,
        height: 1,
    }));
    r
}

/// The part of a progress row that the bar fills: after the one-cell left cap, and short of
/// the right caps (one cell, two with icon glyphs) and one more cell.
pub open spec fn spec_progress_fill_area(prog: Area, nerd: bool) -> Area {
    let endcap: int = if nerd { 2 } else { 1 };
    let w1: int = if prog.width >= 1 { prog.width - 1 } else { 0 };
    Area {
        x: (prog.x + 1) as u16,
        y: prog.y,
        width: (if w1 >= endcap { w1 - endcap } else { 0 }) as u16,
        height: prog.height,
    }
}

/// The filled part of a progress row (see `spec_progress_fill_area`).
pub fn progress_fill_area(prog: Area, nerd: bool) -> (r: Area)
    requires
        prog.x < u16::MAX,
    ensures
        r == spec_progress_fill_area(prog, nerd),
{
    let endcap: u16 = if nerd { 2 } else { 1 };
    Area { x: prog.x + 1, y: prog.y, width: prog.width.saturating_sub(1).saturating_sub(endcap), height: prog.height }
}


/// Row `i` of the settings dialog `popup`: one line inside its border, below the line kept
/// for an error.
pub open spec fn spec_config_row(popup: Area, i: int) -> Area {
    Area {
        x: (popup.x + 1) as u16,
        y: (popup.y + 2 + i) as u16,
        width: (if popup.width >= 2 { popup.width - 2 } else { 0 }) as u16,
        height: 1,
    }
}

/// The rows of the `n` fields of the settings dialog `popup` (see `spec_config_row`).
pub fn config_field_rows(popup: Area, n: usize) -> (r: Vec<Area>)
    requires
        popup.x < u16::MAX,
        popup.y + 2 + n <= u16::MAX,
    ensures
        r@.len() == n,
        forall|i: int| 0 <= i < n ==> #[trigger] r@[i] == spec_config_row(popup, i),
{
    let mut rows: Vec<Area> = Vec::new();
    let w = popup.width.saturating_sub(2);
    let mut i: usize = 0;
    while i < n
        invariant
            i <= n,
            popup.x < u16::MAX,
            popup.y + 2 + n <= u16::MAX,
            w == (if popup.width >= 2 { popup.width - 2 } else { 0 }),
            rows@.len() == i,
            forall|k: int| 0 <= k < i ==> #[trigger] rows@[k] == spec_config_row(popup, k),
        decreases n - i,
    {
        rows.push(Area { x: popup.x + 1, y: popup.y + 2 + i as u16, width: w, height: 1 });
        i += 1;
    }
    rows
}


/// The size rule of one part when an area is split: exactly `Length(n)` cells, or at least
/// `Min(n)` cells.
#[derive(Debug, PartialEq, Eq, Structural, Clone, Copy)]
pub enum SizeRule {
    Length(u16),
    Min(u16),
}

/// The parts that ratatui's `Layout::split` makes of `area`, top to bottom when `vertical`,
/// else left to right, one per rule.
pub uninterp spec fn spec_split(area: Area, vertical: bool, rules: Seq<SizeRule>) -> Seq<Area>;

/// Splits `area` by the rules (ratatui's `Layout::split`): one part per rule.
#[verifier::external_body]
fn split(area: Area, vertical: bool, rules: &Vec<SizeRule>) -> (r: Vec<Area>)
    ensures
        r@ == spec_split(area, vertical, rules@),
        r@.len() == rules@.len(),
{
    let cons: Vec<layout::Constraint> = rules.iter().map(|c| match c {
        SizeRule::Length(n) => layout::Constraint::Length(*n),
        SizeRule::Min(n) => layout::Constraint::Min(*n),
    }).collect();
    let dir = if vertical { layout::Direction::Vertical } else { layout::Direction::Horizontal };
    let rect = layout::Rect::new(area.x, area.y, area.width, area.height);
    let parts = layout::Layout::default().direction(dir).constraints(cons).split(rect);
    parts.iter().map(|p| Area { x: p.x, y: p.y, width: p.width, height: p.height }).collect()
}

/// The sidebar and the main panel of the screen: the screen split into the panes (the
/// rest), the status bar (`status_height` rows) and the key bar (one row), top to bottom;
/// the panes split into the sidebar (20 columns) and the main panel (the rest).
pub open spec fn spec_compute_areas(area: Area, status_height: u16) -> (Area, Area) {
    let outer = spec_split(area, true, seq![SizeRule::Min(1), SizeRule::Length(status_height), SizeRule::Length(1)]);
    let panes = spec_split(outer[0], false, seq![SizeRule::Length(20), SizeRule::Min(1)]);
    (panes[0], panes[1])
}

/// The sidebar and the main panel of the screen (see `spec_compute_areas`).
pub fn compute_areas(area: Area, status_height: u16) -> (r: (Area, Area))
    ensures
        r == spec_compute_areas(area, status_height),
{
    let rows = vec![SizeRule::Min(1), SizeRule::Length(status_height), SizeRule::Length(1)];
    let outer = split(area, true, &rows);
    let cols = vec![SizeRule::Length(20), SizeRule::Min(1)];
    let panes = split(outer[0], false, &cols);
    (panes[0], panes[1])
}

} // verus!
