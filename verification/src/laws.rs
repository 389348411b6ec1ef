//! Properties that relate several operations of the client.
use vstd::prelude::*;
use crate::actions::{action_post, next_repeat, next_scope, player_action_post, view_action_post};
use crate::api::{Album, Artist, FolderItem, FolderItemType, NowPlaying, Playlist, QueueEntry, RadioItem, StatusReply, Track, now_playing_matches, queue_track_matches};
use crate::app::{App, LibraryView, MainView, SearchScope};
use crate::back::back_post;
use crate::config::{all_digits, digits_value, spec_parse_u16, unsigned_digits};
use crate::editing::{insert_at, text_edit};
use crate::effects::{Call, EffectV, Load};
use crate::events::{Action, KeyCode, spec_key_to_action};
use crate::handlers::{clear_queue_key_post, delete_choice_post, delete_dialog_key_post, delete_dialog_step, delete_option_start, spec_delete_enabled, spec_next_enabled};
use crate::messages::{clear_status_post, handled_msg_post, list_loaded_post, now_playing_post, msg_post, timed_status_post, AppMsg};
use crate::navigation::{with_cursor, sat_sub, spec_nav_down, spec_nav_up, toggle_full_art_post};
use crate::select::{album_select_post, artist_select_post, folder_select_post, queue_select_effects, radio_select_post, track_select_effects};
use crate::filter::{
    album_matches, artist_matches, backs, clear_filter_post, folder_matches, item_matches, open_filter_post,
    playlist_matches, shows, spec_is_filterable, spec_lowercase, spec_text_matches, track_matches,
};
use crate::text::{digit_char, spec_decimal};
use crate::utils::spec_main_list_len;
use crate::volume::{clamp_volume, mute_step, mute_toggle, player_ids_v, spec_click_volume, toggle_power_effects, MuteState};
use crate::config::Config;
use crate::geometry::Area;
use crate::keys::{KeyFlags, key_post};
use crate::events::KeyInput;
use crate::mouse::{MouseInput, MouseLayout, mouse_post};
use crate::session::{spec_scroll_offset, texts};
use crate::search::{plan_ok, service_cmds, SearchPlan};

verus! {

/// Muting a player that has a volume and then unmuting it gives that volume back, and the
/// remembered volume is dropped again.
pub proof fn law_mute_then_unmute_restores(vols: Map<Seq<char>, u8>, muted: Map<Seq<char>, u8>, pid: Seq<char>)
    requires
        vols.contains_key(pid),
        vols[pid] > 0,
    ensures
        ({
            let first = mute_toggle(vols, muted, pid);
            let second = mute_toggle(first.0, first.1, pid);
            &&& first.2 == 0
            &&& second.2 == vols[pid]
            &&& second.0 == vols
            &&& second.1 == muted.remove(pid)
        }),
{
    let first = mute_toggle(vols, muted, pid);
    let second = mute_toggle(first.0, first.1, pid);
    assert(second.0 =~= vols);
    assert(second.1 =~= muted.remove(pid));
}

/// Pressing Mute twice on one player restores its volume (and the playing volume, when it
/// is the active player); both changes are marked pending and both volumes are sent.
pub proof fn law_mute_twice_restores_volume(st: MuteState, active: Option<Seq<char>>, pid: Seq<char>, now: u64)
    requires
        st.0.contains_key(pid),
        st.0[pid] > 0,
    ensures
        ({
            let twice = mute_step(mute_step(st, active, pid, now), active, pid, now);
            &&& twice.0 == st.0
            &&& twice.1 == st.1.remove(pid)
            &&& twice.2 == st.2.insert(pid, now)
            &&& twice.4 == st.4.push(EffectV::SendVolume(pid, 0)).push(EffectV::SendVolume(pid, st.0[pid]))
            &&& active == Some(pid) && st.3 is Some ==> twice.3 == Some(crate::api::NowPlaying { volume: st.0[pid], ..st.3.unwrap() })
        }),
{
    law_mute_then_unmute_restores(st.0, st.1, pid);
    let once = mute_step(st, active, pid, now);
    let twice = mute_step(once, active, pid, now);
    assert(twice.2 =~= st.2.insert(pid, now));
}

/// A volume change never leaves the 0..=100 range.
pub proof fn law_volume_in_range(v: int, delta: int)
    ensures
        0 <= clamp_volume(v, delta) <= 100,
        0 <= v + delta <= 100 ==> clamp_volume(v, delta) == v + delta,
{
}

/// Typing a character and then Backspace gives back the text and the cursor.
pub proof fn law_insert_then_backspace(s: Seq<char>, cursor: nat, c: char)
    requires
        cursor <= s.len(),
    ensures
        text_edit(KeyCode::Backspace, insert_at(s, cursor, c), cursor + 1) == Some((s, cursor)),
{
    assert(insert_at(s, cursor, c).remove(cursor as int) =~= s);
}

/// Up and Down keep the cursor within the list of the main panel (or of the queue in
/// full-art mode) when it starts within it.
pub proof fn law_nav_stays_in_list(app: App)
    requires
        !app.focus_sidebar,
        !(app.main_view is Help),
        app.main_selected < spec_main_list_len(app),
    ensures
        spec_nav_down(app).main_selected < spec_main_list_len(app),
        spec_nav_up(app).main_selected < spec_main_list_len(app),
{
}

/// In the delete dialog the arrow keys always land on an option that applies (removing
/// this track, the whole queue and Cancel always apply).
pub proof fn law_delete_dialog_selects_enabled(sel: u8, dir: int, idx: int, len: int)
    requires
        sel < 5,
        dir == 1 || dir == -1,
    ensures
        ({
            let en = spec_delete_enabled(idx, len);
            let r = spec_next_enabled(delete_option_start(sel), dir, en, 5, sel as int);
            0 <= r < 5 && en[r]
        }),
{
    reveal_with_fuel(spec_next_enabled, 6);
    let en = spec_delete_enabled(idx, len);
    assert(en[0] && en[3] && en[4]);
}

/// A status is cleared by the clear request of its own generation, and not by the request
/// of an older one.
pub proof fn law_status_cleared_only_by_its_generation(a0: App, a1: App, a2: App, e: Seq<EffectV>, msg: String, seq: u64)
    requires
        timed_status_post(a0, a1, e, msg),
        clear_status_post(a1, a2, seq),
    ensures
        seq == a1.status_message_gen ==> a2.status_message is None,
        seq != a1.status_message_gen ==> a2.status_message == Some(msg),
        e == seq![EffectV::ClearStatusLater(a1.status_message_gen)],
{
    reveal(timed_status_post);
}

/// A clear request left over from an older status never clears a newer one: after two
/// statuses, the clear request of the first leaves the second shown.
pub proof fn law_stale_clear_keeps_newer_status(
    a0: App, a1: App, a2: App, a3: App, e1: Seq<EffectV>, e2: Seq<EffectV>, m1: String, m2: String,
)
    requires
        timed_status_post(a0, a1, e1, m1),
        timed_status_post(a1, a2, e2, m2),
        clear_status_post(a2, a3, a1.status_message_gen),
    ensures
        a3.status_message == Some(m2),
        e1 == seq![EffectV::ClearStatusLater(a1.status_message_gen)],
{
    reveal(timed_status_post);
    let x = a1.status_message_gen;
    assert(((x + 1) as u64) != x) by (bit_vector);
}

/// The folder listings that arrive keep everything but the listing, its cursor and the
/// loading mark.
proof fn lemma_folder_lists_keep(
    loaded: Seq<App>, lists: Seq<Vec<FolderItem>>, effs: Seq<Seq<EffectV>>, polling: bool, now: u64, k: int,
)
    requires
        loaded.len() > 0,
        0 <= k < loaded.len(),
        loaded[0].local_filter is None,
        forall|j: int| 0 <= j < loaded.len() - 1 ==> handled_msg_post(
            #[trigger] loaded[j], loaded[j + 1], effs[j], AppMsg::FolderItemsLoaded(lists[j]), polling, now),
    ensures
        loaded[k] == (App {
            folder_items: loaded[k].folder_items,
            main_selected: loaded[k].main_selected,
            is_loading: loaded[k].is_loading,
            ..loaded[0]
        }),
    decreases k,
{
    if k > 0 {
        lemma_folder_lists_keep(loaded, lists, effs, polling, now, k - 1);
        assert(handled_msg_post(loaded[k - 1], loaded[k], effs[k - 1], AppMsg::FolderItemsLoaded(lists[k - 1]), polling, now));
        assert(msg_post(loaded[k - 1], loaded[k], effs[k - 1], AppMsg::FolderItemsLoaded(lists[k - 1]), polling, now));
        reveal(list_loaded_post);
    }
}

/// Back after opening a sub-folder returns to the folder left: the same level, entries,
/// title, cursor and history, whatever number of folder listings arrived in between (with
/// no list filter open; with one, Back closes the filter instead).
pub proof fn law_back_undoes_folder_descend(
    a0: App, e: Seq<EffectV>, f: Option<u32>, loaded: Seq<App>, lists: Seq<Vec<FolderItem>>,
    effs: Seq<Seq<EffectV>>, polling: bool, now: u64, a2: App,
)
    requires
        a0.main_view == MainView::Library(LibraryView::Folder { folder_id: f }),
        !a0.focus_sidebar,
        a0.local_filter is None,
        0 <= a0.main_selected < a0.folder_items@.len(),
        a0.folder_items@[a0.main_selected as int].item_type == FolderItemType::Folder,
        loaded.len() > 0,
        folder_select_post(a0, loaded[0], e, f),
        forall|j: int| 0 <= j < loaded.len() - 1 ==> handled_msg_post(
            #[trigger] loaded[j], loaded[j + 1], effs[j], AppMsg::FolderItemsLoaded(lists[j]), polling, now),
        back_post(loaded.last(), a2),
    ensures
        a2.main_view == a0.main_view,
        a2.folder_items == a0.folder_items,
        a2.folder_title == a0.folder_title,
        a2.main_selected == a0.main_selected,
        a2.folder_nav_stack@ == a0.folder_nav_stack@,
{
    lemma_folder_lists_keep(loaded, lists, effs, polling, now, loaded.len() - 1);
    assert(loaded[0].folder_nav_stack@.drop_last() =~= a0.folder_nav_stack@);
}

/// Closing the list filter gives back the list it was opened on, whatever was typed in
/// between: the view's list after closing is the one it had before opening.
pub proof fn law_filter_close_restores_list(a0: App, a1: App, a2: App, a3: App)
    requires
        a0.local_filter is None,
        spec_is_filterable(a0.main_view),
        open_filter_post(a0, a1),
        a2.local_filter matches Some(f2) && f2.owner == a1.local_filter->Some_0.owner
            && f2.backup == a1.local_filter->Some_0.backup,
        clear_filter_post(a2, a3),
    ensures
        a3.local_filter is None,
        backs(a0, a0.main_view, a1.local_filter->Some_0.backup),
        backs(a3, a0.main_view, a1.local_filter->Some_0.backup),
{
    reveal(shows);
}

/// Back after opening an entry of the radio tree returns to the level left: the same
/// entries, title, cursor and history.
pub proof fn law_back_undoes_radio_descend(a0: App, a1: App, a2: App, e: Seq<EffectV>)
    requires
        a0.main_view is Radio,
        !a0.focus_sidebar,
        a0.main_selected < a0.radio_items@.len(),
        a0.radio_items@[a0.main_selected as int].cmd is Some,
        a0.radio_items@[a0.main_selected as int].spec_is_navigable(),
        radio_select_post(a0, a1, e),
        back_post(a1, a2),
    ensures
        a2.radio_items == a0.radio_items,
        a2.radio_title == a0.radio_title,
        a2.main_selected == a0.main_selected,
        a2.radio_nav_stack@ == a0.radio_nav_stack@,
        a2.main_view == a0.main_view,
{
}

/// Switching the search scope forward and then back (or back and then forward) returns to
/// the scope before.
pub proof fn law_scope_round_trip(s: SearchScope, forward: bool)
    ensures
        next_scope(next_scope(s, forward), !forward) == s,
{
}

/// The repeat modes come back after four presses.
pub proof fn law_repeat_cycle(r: u8)
    requires
        r <= 3,
    ensures
        next_repeat(next_repeat(next_repeat(next_repeat(r)))) == r,
{
}

/// Leaving full-art mode right after entering it restores the list position.
pub proof fn law_full_art_round_trip(a0: App, a1: App, a2: App)
    requires
        !a0.full_art_mode,
        toggle_full_art_post(a0, a1),
        toggle_full_art_post(a1, a2),
    ensures
        !a2.full_art_mode,
        a2.main_selected == a0.main_selected,
        a2.saved_main_selected is None,
{
}

/// The decimal text of a number is all digits with that value.
proof fn lemma_decimal_digits(n: nat)
    ensures
        spec_decimal(n).len() > 0,
        all_digits(spec_decimal(n)),
        digits_value(spec_decimal(n)) == n,
        spec_decimal(n)[0] != '+',
    decreases n,
{
    if n >= 10 {
        lemma_decimal_digits(n / 10);
        let d = spec_decimal(n);
        assert(d.drop_last() =~= spec_decimal(n / 10));
        assert(d[0] == spec_decimal(n / 10)[0]);
        assert forall|i: int| 0 <= i < d.len() implies crate::config::is_digit(#[trigger] d[i]) by {
            if i < d.len() - 1 {
                assert(d[i] == spec_decimal(n / 10)[i]);
            }
        }
        assert(digit_char(n % 10) as nat - '0' as nat == n % 10);
        assert(d.last() == digit_char(n % 10));
        assert((n / 10) * 10 + n % 10 == n) by (nonlinear_arith);
        assert(digits_value(d) == digits_value(d.drop_last()) * 10 + (d.last() as nat - '0' as nat) as nat);
    } else {
        let d = spec_decimal(n);
        assert(d.drop_last() =~= Seq::<char>::empty());
        assert(d.last() == digit_char(n));
        assert(digit_char(n) as nat - '0' as nat == n);
        assert(digits_value(d) == digits_value(d.drop_last()) * 10 + (d.last() as nat - '0' as nat) as nat);
        assert(digits_value(d.drop_last()) == 0);
    }
}

/// The port as the settings dialog shows it reads back as the same port.
pub proof fn law_port_text_round_trip(port: u16)
    ensures
        spec_parse_u16(spec_decimal(port as nat)) == Some(port),
{
    lemma_decimal_digits(port as nat);
    assert(unsigned_digits(spec_decimal(port as nat)) == spec_decimal(port as nat));
}

/// A click on a volume bar asks for a volume from 0 to 100: 0 at (or left of) the bar's first
/// column, 100 at (or right of) its end, and more the further right the click.
pub proof fn law_click_volume_bounds(col: u16, col2: u16, bar: Area)
    requires
        bar.width > 0,
    ensures
        spec_click_volume(col, bar) <= 100,
        col <= bar.x ==> spec_click_volume(col, bar) == 0,
        col >= bar.x + bar.width ==> spec_click_volume(col, bar) == 100,
        col <= col2 ==> spec_click_volume(col, bar) <= spec_click_volume(col2, bar),
{
    let w = bar.width as int;
    let d: int = if col <= bar.x { 0 } else if col - bar.x >= bar.width { w } else { col - bar.x };
    let d2: int = if col2 <= bar.x { 0 } else if col2 - bar.x >= bar.width { w } else { col2 - bar.x };
    assert((200 * d + w) / (2 * w) <= 100) by (nonlinear_arith)
        requires 0 <= d <= w, w > 0;
    assert((200 * d2 + w) / (2 * w) <= 100) by (nonlinear_arith)
        requires 0 <= d2 <= w, w > 0;
    assert((200 * 0 + w) / (2 * w) == 0) by (nonlinear_arith)
        requires w > 0;
    assert((200 * w + w) / (2 * w) == 100) by (nonlinear_arith)
        requires w > 0;
    if col <= col2 {
        assert(d <= d2);
        assert((200 * d + w) / (2 * w) <= (200 * d2 + w) / (2 * w)) by (nonlinear_arith)
            requires 0 <= d <= d2, w > 0;
    }
}

/// While the quit confirmation is open the mouse only answers it: a click may quit, or close
/// it with Cancel selected, and nothing else of the state changes; no request is made and the
/// settings stay.
pub proof fn law_quit_dialog_takes_the_mouse(
    old: App,
    new: App,
    effects: Seq<EffectV>,
    oldc: Config,
    newc: Config,
    save: bool,
    ev: MouseInput,
    l: MouseLayout,
    so: usize,
    mo: usize,
    last: Option<(u64, usize)>,
    last_new: Option<(u64, usize)>,
    now: u64,
)
    requires
        old.sync_modal is None && !old.confirm_clear_queue,
        old.confirm_quit,
        mouse_post(old, new, effects, oldc, newc, save, ev, l, so, mo, last, last_new, now),
    ensures
        new == (App { confirm_quit: new.confirm_quit, quit_selected_button: new.quit_selected_button, should_quit: new.should_quit, ..old }),
        effects.len() == 0,
        newc == oldc && !save,
        last_new == last,
{
    reveal(mouse_post);
}

/// While the quit confirmation is open a key only answers it: nothing else of the state
/// changes, no request is made, the settings stay, and the client quits exactly when the
/// answer was to quit.
pub proof fn law_quit_dialog_takes_the_keys(
    old: App,
    new: App,
    effects: Seq<EffectV>,
    oldc: Config,
    newc: Config,
    f: KeyFlags,
    key: KeyInput,
    esc: Option<u64>,
    esc_new: Option<u64>,
    now: u64,
)
    requires
        old.config_modal is None && old.sync_modal is None,
        old.confirm_quit,
        key_post(old, new, effects, oldc, newc, f, key, esc, esc_new, now),
    ensures
        new == (App { confirm_quit: new.confirm_quit, quit_selected_button: new.quit_selected_button, should_quit: new.should_quit, ..old }),
        effects.len() == 0,
        newc == oldc && !f.save_config,
        f.quit == new.should_quit,
        esc_new == esc,
{
    reveal(key_post);
}

/// Keeping the selection in view: the new first row shows it in a window of `visible` rows,
/// and a selection already in view leaves the window where it was.
pub proof fn law_scroll_keeps_selection_visible(offset: usize, selected: usize, visible: usize)
    requires
        visible > 0,
        offset + visible <= usize::MAX,
    ensures
        spec_scroll_offset(offset, selected, visible) <= selected < spec_scroll_offset(offset, selected, visible) + visible,
        offset <= selected < offset + visible ==> spec_scroll_offset(offset, selected, visible) == offset,
{
}


/// A key that names an action means it whatever modifiers are held (Control+c quits; plain
/// c opens the settings): `-` lowers the volume and is the only key that does, `+` and `=`
/// raise it and are the only keys that do, `t` toggles power, `d` and Delete remove the
/// selected queue entry, `x` clears the queue, `q` quits, `1` to `9` jump to the sidebar
/// entries in order, `/` opens the list filter.
pub proof fn law_key_bindings(key: KeyInput)
    ensures
        key.code == KeyCode::Char('-') ==> spec_key_to_action(key) == Action::VolumeDown,
        key.code == KeyCode::Char('+') ==> spec_key_to_action(key) == Action::VolumeUp,
        key.code == KeyCode::Char('=') ==> spec_key_to_action(key) == Action::VolumeUp,
        spec_key_to_action(key) == Action::VolumeUp <==> (key.code == KeyCode::Char('+') || key.code == KeyCode::Char('=')),
        spec_key_to_action(key) == Action::VolumeDown <==> key.code == KeyCode::Char('-'),
        spec_key_to_action(key) == Action::Quit <==> (key.code == KeyCode::Char('q')
            || (key.code == KeyCode::Char('c') && key.control_only)),
        spec_key_to_action(key) == Action::TogglePower <==> key.code == KeyCode::Char('t'),
        spec_key_to_action(key) == Action::ToggleMute <==> key.code == KeyCode::Char('m'),
        spec_key_to_action(key) == Action::ClearQueue <==> key.code == KeyCode::Char('x'),
        spec_key_to_action(key) == Action::DeleteQueueItem <==> (key.code == KeyCode::Char('d') || key.code == KeyCode::Delete),
        spec_key_to_action(key) == Action::PlayPause <==> key.code == KeyCode::Char(' '),
        spec_key_to_action(key) == Action::Next <==> key.code == KeyCode::Char('n'),
        spec_key_to_action(key) == Action::Prev <==> key.code == KeyCode::Char('p'),
        spec_key_to_action(key) == Action::AddToQueue <==> key.code == KeyCode::Char('a'),
        spec_key_to_action(key) == Action::ToggleShuffle <==> key.code == KeyCode::Char('s'),
        spec_key_to_action(key) == Action::ToggleRepeat <==> key.code == KeyCode::Char('r'),
        spec_key_to_action(key) == Action::OpenLocalFilter <==> key.code == KeyCode::Char('/'),
        spec_key_to_action(key) == Action::OpenConfig <==> (key.code == KeyCode::Char('c') && !key.control_only),
        spec_key_to_action(key) == Action::NavUp <==> (key.code == KeyCode::Up || key.code == KeyCode::Char('k')),
        spec_key_to_action(key) == Action::NavDown <==> (key.code == KeyCode::Down || key.code == KeyCode::Char('j')),
        spec_key_to_action(key) == Action::Select <==> (key.code == KeyCode::Enter || key.code == KeyCode::Char('l')),
        spec_key_to_action(key) == Action::Back <==> (key.code == KeyCode::Esc || key.code == KeyCode::Backspace
            || key.code == KeyCode::Char('h')),
        forall|d: char| '1' <= d <= '9' && key.code == KeyCode::Char(d)
            ==> spec_key_to_action(key) == Action::NavToSidebar((d as u32 - '1' as u32) as usize),
        forall|n: usize| spec_key_to_action(key) == Action::NavToSidebar(n) ==> n < 9,
{
}

/// The now-playing state shows the reply's own title, artist and album texts (empty when
/// absent), each from its own field; the reply's mixer volume; playing exactly in mode
/// "play"; a positive year as given, none for year 0 or none.
pub proof fn law_now_playing_fields(np: NowPlaying, s: StatusReply, base: Seq<char>)
    requires
        now_playing_matches(np, s, base),
    ensures
        s.title matches Some(t) ==> np.title@ == t@,
        s.title is None ==> np.title@.len() == 0,
        s.artist matches Some(a) ==> np.artist@ == a@,
        s.artist is None ==> np.artist@.len() == 0,
        s.album matches Some(a) ==> np.album@ == a@,
        s.album is None ==> np.album@.len() == 0,
        np.volume == s.volume,
        np.is_playing <==> (s.mode matches Some(m) && m@ == "play"@),
        s.year_num is Some && 0 < s.year_num->Some_0 <= u32::MAX ==> np.year == Some(s.year_num->Some_0 as u32),
        s.year_num == Some(0u64) ==> np.year is None,
        s.year_num is None && s.year_text is None ==> np.year is None,
        s.shuffle is None ==> np.shuffle == 0,
        s.repeat is None ==> np.repeat == 0,
{
    reveal_strlit("");
}

/// An element is in a filtered sequence exactly when it is in the sequence and kept.
proof fn lemma_filter_membership<A>(s: Seq<A>, p: spec_fn(A) -> bool, x: A)
    ensures
        s.filter(p).contains(x) <==> (s.contains(x) && p(x)),
{
    if s.filter(p).contains(x) {
        s.lemma_filter_contains_rev(p, x);
        let i = choose|i: int| 0 <= i < s.filter(p).len() && s.filter(p)[i] == x;
        s.lemma_filter_pred(p, i);
    }
    if s.contains(x) && p(x) {
        let i = choose|i: int| 0 <= i < s.len() && s[i] == x;
        s.lemma_filter_contains(p, i);
    }
}

/// A lower-case query matches a text exactly when it is empty or occurs in the text's lower
/// case at some position.
pub proof fn law_query_matching(q: Seq<char>, h: Seq<char>)
    ensures
        spec_text_matches(q, h) <==> (q.len() == 0 || exists|i: int| 0 <= i && i + q.len() <= spec_lowercase(h).len()
            && #[trigger] spec_lowercase(h).subrange(i, i + q.len()) == q),
{
}

/// The filter of tracks (of the tracks list and of the queue) keeps, in order, exactly the
/// tracks whose title or whose artist matches the query; the filter of albums those whose
/// title or artist matches; the filters of artists, playlists, folder entries and browse
/// entries those whose name matches.
pub proof fn law_filters_keep_matching_items(q: Seq<char>, tracks: Seq<Track>, albums: Seq<Album>, artists: Seq<Artist>,
    playlists: Seq<Playlist>, folders: Seq<FolderItem>, items: Seq<RadioItem>)
    ensures
        forall|t: Track| #[trigger] tracks.filter(track_matches(q)).contains(t) <==> (tracks.contains(t)
            && (spec_text_matches(q, t.title@) || (t.artist matches Some(a) && spec_text_matches(q, a@)))),
        forall|t: Album| #[trigger] albums.filter(album_matches(q)).contains(t) <==> (albums.contains(t)
            && (spec_text_matches(q, t.album@) || (t.artist matches Some(a) && spec_text_matches(q, a@)))),
        forall|t: Artist| #[trigger] artists.filter(artist_matches(q)).contains(t) <==> (artists.contains(t)
            && spec_text_matches(q, t.artist@)),
        forall|t: Playlist| #[trigger] playlists.filter(playlist_matches(q)).contains(t) <==> (playlists.contains(t)
            && spec_text_matches(q, t.name@)),
        forall|t: FolderItem| #[trigger] folders.filter(folder_matches(q)).contains(t) <==> (folders.contains(t)
            && spec_text_matches(q, t.filename@)),
        forall|t: RadioItem| #[trigger] items.filter(item_matches(q)).contains(t) <==> (items.contains(t)
            && spec_text_matches(q, t.name@)),
{
    assert forall|t: Track| #[trigger] tracks.filter(track_matches(q)).contains(t) <==> (tracks.contains(t)
        && (spec_text_matches(q, t.title@) || (t.artist matches Some(a) && spec_text_matches(q, a@)))) by {
        lemma_filter_membership(tracks, track_matches(q), t);
    }
    assert forall|t: Album| #[trigger] albums.filter(album_matches(q)).contains(t) <==> (albums.contains(t)
        && (spec_text_matches(q, t.album@) || (t.artist matches Some(a) && spec_text_matches(q, a@)))) by {
        lemma_filter_membership(albums, album_matches(q), t);
    }
    assert forall|t: Artist| #[trigger] artists.filter(artist_matches(q)).contains(t) <==> (artists.contains(t)
        && spec_text_matches(q, t.artist@)) by {
        lemma_filter_membership(artists, artist_matches(q), t);
    }
    assert forall|t: Playlist| #[trigger] playlists.filter(playlist_matches(q)).contains(t) <==> (playlists.contains(t)
        && spec_text_matches(q, t.name@)) by {
        lemma_filter_membership(playlists, playlist_matches(q), t);
    }
    assert forall|t: FolderItem| #[trigger] folders.filter(folder_matches(q)).contains(t) <==> (folders.contains(t)
        && spec_text_matches(q, t.filename@)) by {
        lemma_filter_membership(folders, folder_matches(q), t);
    }
    assert forall|t: RadioItem| #[trigger] items.filter(item_matches(q)).contains(t) <==> (items.contains(t)
        && spec_text_matches(q, t.name@)) by {
        lemma_filter_membership(items, item_matches(q), t);
    }
}

/// The Power key on a player row of the Players list asks for that player to be switched
/// on when it is off and off when it is on; on the all-players row it asks for every player
/// to be switched on when any is off, and off when all are on.
pub proof fn law_power_key_toggles(app: App)
    requires
        app.main_view is Players,
    ensures
        !app.players_focus_global && app.main_selected < app.players@.len() ==> {
            let p = app.players@[app.main_selected as int];
            &&& toggle_power_effects(app).len() == 1
            &&& toggle_power_effects(app)[0] matches EffectV::Fire(Call::SetPower(id, on))
                && id == p.playerid@ && (on <==> p.power == 0)
        },
        app.players_focus_global ==> {
            &&& toggle_power_effects(app).len() == 1
            &&& toggle_power_effects(app)[0] matches EffectV::PowerAll(ids, on) && ids == player_ids_v(app.players@)
                && (on <==> (app.players@.len() == 0 || exists|i: int| 0 <= i < app.players@.len() && #[trigger] app.players@[i].power == 0))
        },
{
}

/// The delete dialog on queue row `idx` (an active player set): `y` or `d` removes exactly
/// that track (the queue keeps the others, in order) with one request to remove entry
/// `idx`; Enter on the second option removes the tracks before it, on the third those after
/// it, on the fourth the whole queue; Esc and `q` close the dialog and change nothing else.
pub proof fn law_delete_dialog_choices(old: App, new: App, effects: Seq<EffectV>, key: KeyCode, idx: usize, pid: String)
    requires
        old.confirm_delete_queue_item == Some(idx),
        old.active_player == Some(pid),
        idx < old.queue@.len(),
        delete_dialog_key_post(old, new, effects, key),
    ensures
        key == KeyCode::Char('y') || key == KeyCode::Char('d') ==> {
            &&& new.queue@ =~= old.queue@.take(idx as int) + old.queue@.skip(idx + 1)
            &&& new.confirm_delete_queue_item is None
            &&& effects.len() == 1
            &&& effects[0] matches EffectV::Report(Call::DeleteQueueItem(p, i), _) && p == pid@ && i == idx
        },
        key == KeyCode::Enter && old.delete_queue_selected_button == 1 && idx > 0 ==> {
            &&& new.queue@ =~= old.queue@.skip(idx as int)
            &&& effects.len() == 1
            &&& effects[0] matches EffectV::Report(Call::DeleteQueueItemsBefore(p, i), _) && p == pid@ && i == idx
        },
        key == KeyCode::Enter && old.delete_queue_selected_button == 2 && idx + 1 < old.queue@.len() ==> {
            &&& new.queue@ =~= old.queue@.take(idx + 1)
            &&& effects.len() == 1
            &&& effects[0] matches EffectV::Report(Call::DeleteQueueItemsAfter(p, i, n), _) && p == pid@ && i == idx
                && n == old.queue@.len()
        },
        key == KeyCode::Enter && old.delete_queue_selected_button == 3 ==> {
            &&& new.queue@.len() == 0
            &&& effects.len() == 1
            &&& effects[0] matches EffectV::Report(Call::ClearQueue(p), _) && p == pid@
        },
        key == KeyCode::Esc || key == KeyCode::Char('q') ==> {
            &&& new.queue == old.queue
            &&& new.confirm_delete_queue_item is None
            &&& effects.len() == 0
        },
{
    let len = old.queue@.len() as int;
    if key == KeyCode::Enter && old.delete_queue_selected_button == 2 && idx + 1 < len {
        assert(old.queue@.subrange(0, idx + 1) =~= old.queue@.take(idx + 1));
        assert(old.queue.len() == old.queue@.len());
        let step = delete_dialog_step(idx, len, old.delete_queue_selected_button, key);
        assert(step.2 == Some(2u8));
        let mid = App { confirm_delete_queue_item: step.0, delete_queue_selected_button: step.1, ..old };
        assert(delete_choice_post(mid, new, effects, idx as int, 2, len));
        assert(new.queue@ =~= old.queue@.take(idx + 1));
    }
}


/// Outside the Players view and without global volume control, Volume Up raises the active
/// player's volume by 5 (from its playing volume, 50 when nothing plays) up to 100 and
/// Volume Down lowers it by 5 down to 0; the new volume is sent for that player and shown.
pub proof fn law_volume_keys_move_active_player(old: App, new: App, effects: Seq<EffectV>, up: bool, now: u64, pid: String)
    requires
        !old.global_volume_control,
        !(old.main_view is Players),
        old.active_player == Some(pid),
        action_post(old, new, effects, if up { Action::VolumeUp } else { Action::VolumeDown }, now),
    ensures
        ({
            let cur: int = match old.now_playing { Some(n) => n.volume as int, None => 50 };
            let moved: int = if up { cur + 5 } else { cur - 5 };
            let nv: int = if moved < 0 { 0 } else if moved > 100 { 100 } else { moved };
            &&& effects.len() == 1
            &&& effects[0] matches EffectV::SendVolume(p, v) && p == pid@ && v == nv
            &&& new.player_volumes@.contains_key(pid@) && new.player_volumes@[pid@] == nv
            &&& (old.now_playing is Some ==> (new.now_playing is Some && new.now_playing->Some_0.volume == nv))
        }),
{
    reveal(player_action_post);
}

/// The playback keys ask the active player to: pause when it plays and play otherwise
/// (Space), skip to the next or previous track, switch shuffle off when it is on and on when
/// it is off, and move repeat from off to one track, to the whole list, back to off.
pub proof fn law_playback_keys(old: App, new: App, effects: Seq<EffectV>, action: Action, now: u64, pid: String)
    requires
        old.active_player == Some(pid),
        action_post(old, new, effects, action, now),
    ensures
        action == Action::PlayPause ==> new == old && effects.len() == 1 && (effects[0] == EffectV::Fire(Call::Pause(pid@))
            <==> (old.now_playing matches Some(n) && n.is_playing))
            && (effects[0] == EffectV::Fire(Call::Play(pid@)) <==> !(old.now_playing matches Some(n) && n.is_playing)),
        action == Action::Next ==> new == old && effects =~= seq![EffectV::Fire(Call::Next(pid@))],
        action == Action::Prev ==> new == old && effects =~= seq![EffectV::Fire(Call::Prev(pid@))],
        action == Action::ToggleShuffle && old.now_playing is Some ==> {
            &&& new == old && effects.len() == 1
            &&& effects[0] matches EffectV::Fire(Call::SetShuffle(p, on)) && p == pid@
                && (on == 1 <==> old.now_playing->Some_0.shuffle == 0) && (on == 0 <==> old.now_playing->Some_0.shuffle > 0)
        },
        action == Action::ToggleRepeat && old.now_playing is Some ==> {
            &&& new == old && effects.len() == 1
            &&& effects[0] matches EffectV::Fire(Call::SetRepeat(p, m)) && p == pid@
                && (old.now_playing->Some_0.repeat == 0 ==> m == 1)
                && (old.now_playing->Some_0.repeat == 1 ==> m == 2)
                && (old.now_playing->Some_0.repeat == 2 ==> m == 3)
                && (old.now_playing->Some_0.repeat >= 3 ==> m == 0)
        },
        action == Action::TogglePower ==> new == old,
{
    reveal(player_action_post);
}

/// Down and Up in a list of the main panel (no dialog, sidebar, full-art mode, filter or
/// search box in the way) move the cursor one row down, stopping at the last row, and one
/// row up, stopping at the first; nothing else changes.
pub proof fn law_arrows_move_one_row(old: App, new: App, effects: Seq<EffectV>, down: bool, now: u64)
    requires
        !old.full_art_mode,
        !old.focus_sidebar,
        old.local_filter is None,
        old.main_view is Queue || old.main_view is Radio || old.main_view is Apps || old.main_view is Favourites
            || old.main_view is Library,
        spec_main_list_len(old) <= usize::MAX,
        action_post(old, new, effects, if down { Action::NavDown } else { Action::NavUp }, now),
    ensures
        effects.len() == 0,
        new == (App { main_selected: new.main_selected, ..old }),
        down && old.main_selected + 1 < spec_main_list_len(old) ==> new.main_selected == old.main_selected + 1,
        down && old.main_selected + 1 >= spec_main_list_len(old) ==> new.main_selected == old.main_selected,
        !down && old.main_selected > 0 ==> new.main_selected == old.main_selected - 1,
        !down && old.main_selected == 0 ==> new.main_selected == 0,
{
    reveal(view_action_post);
    if down {
        assert(new == with_cursor(old, spec_nav_down(old)));
    } else {
        assert(new == with_cursor(old, spec_nav_up(old)));
    }
}

/// The clear-queue confirmation: `y`, or Enter on the first button, asks the server to clear
/// the active player's queue and closes the dialog; Esc, or Enter on the second button,
/// closes it without a request; Tab and the side arrows swap the buttons.
pub proof fn law_clear_queue_dialog(old: App, new: App, effects: Seq<EffectV>, key: KeyCode, pid: String)
    requires
        old.confirm_clear_queue,
        old.active_player == Some(pid),
        old.clear_queue_selected_button <= 1,
        clear_queue_key_post(old, new, effects, key),
    ensures
        key == KeyCode::Char('y') || (key == KeyCode::Enter && old.clear_queue_selected_button == 0) ==> {
            &&& !new.confirm_clear_queue
            &&& effects.len() == 1
            &&& effects[0] matches EffectV::Report(Call::ClearQueue(p), _) && p == pid@
            &&& new.queue == old.queue
        },
        key == KeyCode::Esc || (key == KeyCode::Enter && old.clear_queue_selected_button == 1) ==> {
            &&& !new.confirm_clear_queue
            &&& effects.len() == 0
        },
        key == KeyCode::Tab ==> new.confirm_clear_queue && new.clear_queue_selected_button != old.clear_queue_selected_button
            && effects.len() == 0,
{
}


/// A queue row shows the entry's own title ("Unknown" without one), artist, album, id and
/// duration.
pub proof fn law_queue_row_fields(r: Track, e: QueueEntry, base: Seq<char>)
    requires
        queue_track_matches(r, e, base),
    ensures
        e.title matches Some(t) ==> r.title@ == t@,
        e.title is None ==> r.title@ == "Unknown"@,
        r.artist == e.artist,
        r.album == e.album,
        r.id == e.id,
        r.duration_secs == e.duration_secs,
{
}

/// Each loaded list lands in its own list (and only there): artists, album artists, albums,
/// tracks, recent artists, popular albums, playlists, favourites and folder entries; the
/// cursor goes to the top for favourites, folders and search results.
pub proof fn law_lists_land_in_their_place(old: App, new: App, msg: AppMsg)
    requires
        list_loaded_post(old, new, msg),
    ensures
        msg matches AppMsg::ArtistsLoaded(a) ==> new.artists == a && new.album_artists == old.album_artists
            && new.recent_artists == old.recent_artists,
        msg matches AppMsg::AlbumArtistsLoaded(a) ==> new.album_artists == a && new.artists == old.artists,
        msg matches AppMsg::RecentArtistsLoaded(a) ==> new.recent_artists == a && new.artists == old.artists,
        msg matches AppMsg::AlbumsLoaded(a) ==> new.albums == a && new.popular_albums == old.popular_albums,
        msg matches AppMsg::PopularAlbumsLoaded(a) ==> new.popular_albums == a && new.albums == old.albums,
        msg matches AppMsg::TracksLoaded(t) ==> new.tracks == t && new.queue == old.queue,
        msg matches AppMsg::PlaylistsLoaded(p) ==> new.playlists == p,
        msg matches AppMsg::FavItemsLoaded(i) ==> new.fav_items == i && new.main_selected == 0,
        msg matches AppMsg::FolderItemsLoaded(i) ==> new.folder_items == i && new.main_selected == 0,
        msg matches AppMsg::SearchResultsLoaded(r) ==> new.search_results == r && new.main_selected == 0,
        new.main_view == old.main_view,
        new.local_filter == old.local_filter,
{
    reveal(list_loaded_post);
}

/// A now-playing report concerns only the active player: it replaces what is shown for it
/// (keeping the shown volume while a volume change of ours is pending), and a report about
/// another player changes nothing.
pub proof fn law_now_playing_only_for_active(old: App, new: App, pid: String, np: NowPlaying)
    requires
        now_playing_post(old, new, pid, np),
    ensures
        !(old.active_player matches Some(a) && a@ == pid@) ==> new == old,
        (old.active_player matches Some(a) && a@ == pid@) ==> {
            &&& new.now_playing is Some
            &&& new.now_playing->Some_0.title == np.title
            &&& new.now_playing->Some_0.is_playing == np.is_playing
            &&& (old.volume_pending@.contains_key(pid@) && old.now_playing is Some
                ==> new.now_playing->Some_0.volume == old.now_playing->Some_0.volume)
            &&& (!old.volume_pending@.contains_key(pid@) ==> new.now_playing->Some_0.volume == np.volume)
        },
{
    reveal(now_playing_post);
}


/// Enter on an artist opens that artist's albums at the first row and asks for them; Enter
/// on an album opens its tracks and asks for them; the rest of the state stays.
pub proof fn law_enter_drills_into_artist_and_album(old: App, new: App, effects: Seq<EffectV>, new2: App, effects2: Seq<EffectV>)
    requires
        old.main_view == MainView::Library(LibraryView::Artists),
        old.main_selected < old.artists@.len(),
        artist_select_post(old, new, effects),
        old.main_selected < old.albums@.len(),
        album_select_post(App { main_view: MainView::Library(LibraryView::Albums { artist_id: None }), ..old }, new2, effects2),
    ensures
        ({
            let id = old.artists@[old.main_selected as int].id;
            &&& new.main_view == MainView::Library(LibraryView::Albums { artist_id: Some(id) })
            &&& new.main_selected == 0
            &&& effects =~= seq![EffectV::Load(Load::Albums(Some(id@)))]
        }),
        ({
            let id = old.albums@[old.main_selected as int].id;
            &&& new2.main_view == MainView::Library(LibraryView::Tracks { album_id: Some(id) })
            &&& new2.main_selected == 0
            &&& effects2 =~= seq![EffectV::Load(Load::Tracks(id@))]
        }),
{
}

/// Enter on a track plays on the active player: inside an album the album from the selected
/// row, in the queue the selected queue row, in the list of all tracks the selected track by
/// its id.
pub proof fn law_enter_plays(app: App, pid: String, album: String)
    requires
        app.active_player == Some(pid),
    ensures
        track_select_effects(app, Some(album)) =~= seq![EffectV::PlayAlbumAt(pid@, album@, app.main_selected)],
        queue_select_effects(app) =~= seq![EffectV::Fire(Call::PlayTrackIndex(pid@, app.main_selected))],
        app.main_selected < app.tracks@.len() && app.tracks@[app.main_selected as int].id is Some ==>
            track_select_effects(app, None) =~= seq![EffectV::Fire(Call::PlayTrack(pid@,
                app.tracks@[app.main_selected as int].id->Some_0@))],
{
}


/// Which searches a scope runs: My Music only the library, Radios only the radio services,
/// Apps only the apps, All every one of them.
pub proof fn law_search_scopes(p: SearchPlan, scope: SearchScope, apps: Seq<RadioItem>, radios: Seq<RadioItem>)
    requires
        plan_ok(p, scope, apps, radios),
    ensures
        scope == SearchScope::MyMusic ==> p.library && p.radio_cmds@.len() == 0 && p.app_cmds@.len() == 0,
        scope == SearchScope::Radios ==> !p.library && texts(p.radio_cmds@) == service_cmds(radios) && p.app_cmds@.len() == 0,
        scope == SearchScope::Apps ==> !p.library && p.radio_cmds@.len() == 0 && texts(p.app_cmds@) == service_cmds(apps),
        scope == SearchScope::All ==> p.library && texts(p.radio_cmds@) == service_cmds(radios)
            && texts(p.app_cmds@) == service_cmds(apps),
{
    assert(texts(p.radio_cmds@).len() == p.radio_cmds@.len());
    assert(texts(p.app_cmds@).len() == p.app_cmds@.len());
}

} // verus!
