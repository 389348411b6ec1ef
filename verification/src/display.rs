//! Texts the screens show: icons, bars, titles, durations and shortened names.
use vstd::prelude::*;
use vstd::string::*;
use crate::app::{RadioNav, SidebarItem};
use crate::text::{push_decimal, spec_decimal, string_push, to_owned_string};

verus! {

/// The Nerd Font glyph of a sidebar entry.
pub open spec fn spec_sidebar_nerd_icon(item: SidebarItem) -> Seq<char> {
    match item {
        SidebarItem::MyMusic => "\u{F001}"@,
        SidebarItem::Search => "\u{F002}"@,
        SidebarItem::Radio => "\u{F130}"@,
        SidebarItem::Apps => "\u{F009}"@,
        SidebarItem::Favourites => "\u{F005}"@,
        SidebarItem::Queue => "\u{F03A}"@,
        SidebarItem::Players => "\u{F028}"@,
        SidebarItem::Help => "\u{F059}"@,
    }
}

/// The Nerd Font glyph of a sidebar entry.
pub fn sidebar_nerd_icon(item: &SidebarItem) -> (r: &'static str)
    ensures
        r@ == spec_sidebar_nerd_icon(*item),
{
    match item {
        SidebarItem::MyMusic => "\u{F001}",
        SidebarItem::Search => "\u{F002}",
        SidebarItem::Radio => "\u{F130}",
        SidebarItem::Apps => "\u{F009}",
        SidebarItem::Favourites => "\u{F005}",
        SidebarItem::Queue => "\u{F03A}",
        SidebarItem::Players => "\u{F028}",
        SidebarItem::Help => "\u{F059}",
    }
}

/// The volume icon: a Nerd Font glyph, or a plain note.
pub fn icon_vol(nerd: bool) -> (r: &'static str)
    ensures
        r@ == (if nerd { "\u{F028}"@ } else { "\u{266A}"@ }),
{
    if nerd { "\u{F028}" } else { "\u{266A}" }
}

/// The muted icon: a Nerd Font glyph, or a plain cross.
pub fn icon_mute(nerd: bool) -> (r: &'static str)
    ensures
        r@ == (if nerd { "\u{F026}"@ } else { "\u{D7}"@ }),
{
    if nerd { "\u{F026}" } else { "\u{D7}" }
}

/// The muted icon at volume 0, the volume icon otherwise.
pub fn icon_vol_or_mute(nerd: bool, vol: u8) -> (r: &'static str)
    ensures
        r@ == (if vol == 0 {
            if nerd { "\u{F026}"@ } else { "\u{D7}"@ }
        } else {
            if nerd { "\u{F028}"@ } else { "\u{266A}"@ }
        }),
{
    if vol == 0 { icon_mute(nerd) } else { icon_vol(nerd) }
}

/// The power icon.
pub fn icon_power(nerd: bool) -> (r: &'static str)
    ensures
        r@ == (if nerd { "\u{F011}"@ } else { "o"@ }),
{
    if nerd { "\u{F011}" } else { "o" }
}

/// The marker of the active player.
pub fn icon_player_dot(nerd: bool) -> (r: &'static str)
    ensures
        r@ == (if nerd { "\u{f075a}"@ } else { "\u{25B6}"@ }),
{
    if nerd { "\u{f075a}" } else { "\u{25B6}" }
}

/// The marker of the all-players row.
pub fn icon_globe(nerd: bool) -> (r: &'static str)
    ensures
        r@ == (if nerd { " \u{F0AC}"@ } else { " \u{25CE}"@ }),
{
    if nerd { " \u{F0AC}" } else { " \u{25CE}" }
}

/// `c` repeated `n` times.
pub open spec fn repeat_char(c: char, n: nat) -> Seq<char> {
    Seq::new(n, |i: int| c)
}

fn push_repeat(s: &mut String, c: char, n: usize)
    ensures
        final(s)@ == old(s)@ + repeat_char(c, n as nat),
{
    let ghost s0 = s@;
    let mut i: usize = 0;
    while i < n
        invariant
            i <= n,
            s@ == s0 + repeat_char(c, i as nat),
        decreases n - i,
    {
        string_push(s, c);
        assert(s@ =~= s0 + repeat_char(c, (i + 1) as nat));
        i += 1;
    }
}

/// A bar `width` cells wide filled to `value` percent (rounded down): full blocks, then
/// light shade for the rest.
pub open spec fn spec_bar_fill(value: nat, width: nat) -> Seq<char> {
    let filled = value * width / 100;
    repeat_char('\u{2588}', filled) + repeat_char('\u{2591}', if width > filled { (width - filled) as nat } else { 0 })
}

/// A volume bar of `width` cells for `value` percent.
pub fn build_bar_fill(value: u8, width: usize) -> (r: String)
    requires
        value as int * width as int <= usize::MAX,
    ensures
        r@ == spec_bar_fill(value as nat, width as nat),
{
    let filled = (value as usize * width) / 100;
    let mut s = String::new();
    push_repeat(&mut s, '\u{2588}', filled);
    let rest: usize = if width > filled { width - filled } else { 0 };
    push_repeat(&mut s, '\u{2591}', rest);
    s
}

/// The parts joined with " › ".
pub open spec fn join_crumbs(parts: Seq<Seq<char>>) -> Seq<char>
    decreases parts.len(),
{
    if parts.len() == 0 {
        Seq::empty()
    } else if parts.len() == 1 {
        parts[0]
    } else {
        join_crumbs(parts.drop_last()) + " \u{203A} "@ + parts.last()
    }
}

/// The titles of the levels left behind, then `current`, joined with " › ".
pub fn breadcrumb_str(stack: &Vec<String>, current: &str) -> (r: String)
    ensures
        r@ == join_crumbs(stack@.map_values(|s: String| s@).push(current@)),
{
    let ghost parts = stack@.map_values(|s: String| s@).push(current@);
    let mut out = String::new();
    let mut i: usize = 0;
    while i < stack.len()
        invariant
            i <= stack@.len(),
            parts == stack@.map_values(|s: String| s@).push(current@),
            out@ == join_crumbs(parts.take(i as int)),
        decreases stack@.len() - i,
    {
        assert(parts.take(i + 1).drop_last() =~= parts.take(i as int));
        assert(parts.take(i + 1).last() == stack@[i as int]@);
        if i > 0 {
            out.append(" \u{203A} ");
        }
        out.append(stack[i].as_str());
        i += 1;
    }
    assert(parts.take(stack@.len() as int + 1).drop_last() =~= parts.take(stack@.len() as int));
    assert(parts.take(stack@.len() as int + 1) =~= parts);
    if stack.len() > 0 {
        out.append(" \u{203A} ");
    }
    out.append(current);
    out
}

/// The title of a browse list: the breadcrumb of the levels left behind and the current
/// one, with a space on each side.
pub fn browse_title(nav_stack: &Vec<RadioNav>, current: &str) -> (r: String)
    ensures
        r@ == " "@ + join_crumbs(nav_stack@.map_values(|n: RadioNav| n.title@).push(current@)) + " "@,
{
    let mut titles: Vec<String> = Vec::new();
    let mut i: usize = 0;
    while i < nav_stack.len()
        invariant
            i <= nav_stack@.len(),
            titles@.len() == i,
            forall|k: int| 0 <= k < i ==> (#[trigger] titles@[k])@ == nav_stack@[k].title@,
        decreases nav_stack@.len() - i,
    {
        titles.push(nav_stack[i].title.clone());
        i += 1;
    }
    assert(titles@.map_values(|s: String| s@) =~= nav_stack@.map_values(|n: RadioNav| n.title@));
    let crumbs = breadcrumb_str(&titles, current);
    let mut out = to_owned_string(" ");
    out.append(crumbs.as_str());
    out.append(" ");
    out
}

/// Height of the sync dialog for `n` other players: borders, padding, one row per player,
/// the buttons and the hint.
pub fn sync_modal_popup_height(n_players: usize) -> (r: u16)
    requires
        n_players + 6 <= u16::MAX,
    ensures
        r == n_players + 6,
{
    n_players as u16 + 6
}

/// `s` cut to `max_chars` characters, the last of them an ellipsis, when it is longer.
pub open spec fn spec_truncate_ellipsis(s: Seq<char>, max_chars: nat) -> Seq<char> {
    if s.len() > max_chars {
        s.take(if max_chars > 0 { max_chars - 1 } else { 0 }).push('\u{2026}')
    } else {
        s
    }
}

/// Shortens `s` to `max_chars` characters with an ellipsis.
pub fn truncate_ellipsis(s: &str, max_chars: usize) -> (r: String)
    ensures
        r@ == spec_truncate_ellipsis(s@, max_chars as nat),
{
    let n = s.unicode_len();
    if n > max_chars {
        let keep: usize = if max_chars > 0 { max_chars - 1 } else { 0 };
        let mut out = to_owned_string(s.substring_char(0, keep));
        string_push(&mut out, '\u{2026}');
        out
    } else {
        to_owned_string(s)
    }
}

/// Two digits, with a leading zero below 10.
pub open spec fn pad2(n: nat) -> Seq<char> {
    if n < 10 { "0"@ + spec_decimal(n) } else { spec_decimal(n) }
}

/// A duration of `secs` seconds as `h:mm:ss`, or `m:ss` under an hour.
pub open spec fn spec_format_duration(secs: nat) -> Seq<char> {
    let m = secs / 60;
    let h = m / 60;
    if h > 0 {
        spec_decimal(h) + ":"@ + pad2(m % 60) + ":"@ + pad2(secs % 60)
    } else {
        spec_decimal(m) + ":"@ + pad2(secs % 60)
    }
}

fn push_pad2(s: &mut String, n: u64)
    requires
        n < 100,
    ensures
        final(s)@ == old(s)@ + pad2(n as nat),
{
    if n < 10 {
        s.append("0");
    }
    push_decimal(s, n);
}

/// Formats a duration of whole seconds.
pub fn format_duration(secs: u64) -> (r: String)
    ensures
        r@ == spec_format_duration(secs as nat),
{
    let m = secs / 60;
    let h = m / 60;
    let mut s = String::new();
    if h > 0 {
        push_decimal(&mut s, h);
        s.append(":");
        push_pad2(&mut s, m % 60);
        s.append(":");
        push_pad2(&mut s, secs % 60);
    } else {
        push_decimal(&mut s, m);
        s.append(":");
        push_pad2(&mut s, secs % 60);
    }
    s
}

/// Width of the power button column of the Players screen.
pub const PLAYERS_PWR_BTN_W: u16 = 3;

/// Width of the sync button column of the Players screen.
pub const PLAYERS_SYNC_BTN_W: u16 = 3;

/// Column widths of one row of the Players screen, shared by drawing and clicking.
#[derive(Debug, Clone, Copy, PartialEq, Eq, Structural)]
pub struct PlayersRowLayout {
    /// Width of the trailing volume text (space, icon, three digits, percent sign).
    pub vol_str_w: usize,
    /// Width of the volume bar.
    pub bar_w: usize,
    /// Width of the player name column.
    pub name_col_w: usize,
}

/// The Players row layout for an area `width` cells wide: the room left after the borders,
/// buttons and volume text is split between the bar and the name (the name gets the odd cell).
pub open spec fn spec_players_row_layout(width: u16, nerd: bool) -> PlayersRowLayout {
    let vol_str_w: int = 1 + (if nerd { 2int } else { 0int }) + 4;
    let row_w: int = if width > 3 { width - 3 } else { 0 };
    let fixed: int = PLAYERS_PWR_BTN_W + PLAYERS_SYNC_BTN_W + vol_str_w + 1 + 3;
    let flex: int = if row_w > fixed { row_w - fixed } else { 0 };
    PlayersRowLayout { vol_str_w: vol_str_w as usize, bar_w: (flex / 2) as usize, name_col_w: (flex - flex / 2) as usize }
}

/// The Players row layout for an area `width` cells wide.
pub fn players_row_layout(width: u16, use_nerd_icons: bool) -> (r: PlayersRowLayout)
    ensures
        r == spec_players_row_layout(width, use_nerd_icons),
{
    let vol_icon_w: usize = if use_nerd_icons { 2 } else { 0 };
    let vol_str_w = 1 + vol_icon_w + 4;
    let row_w: usize = if width > 3 { (width - 3) as usize } else { 0 };
    let fixed = PLAYERS_PWR_BTN_W as usize + PLAYERS_SYNC_BTN_W as usize + vol_str_w + 1 + 3;
    let flex: usize = if row_w > fixed { row_w - fixed } else { 0 };
    let bar_w = flex / 2;
    let name_col_w = flex - bar_w;
    PlayersRowLayout { vol_str_w, bar_w, name_col_w }
}

} // verus!
