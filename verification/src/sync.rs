//! The player synchronisation dialog: which other players join the chosen player's group.
use vstd::prelude::*;
use vstd::string::*;
use crate::api::Player;
use crate::app::{App, SyncModal};
use crate::effects::{Call, Effect, EffectV, Effects, effect_v, effects_v, lemma_effects_v_push, no_effects};
use crate::events::{KeyCode, KeyInput};
use crate::handlers::{is_down_key, is_up_key};
use crate::table::StrMap;

verus! {

/// The code of `c` with ASCII capitals lowered.
pub open spec fn ascii_lower(c: char) -> u32 {
    if 'A' <= c && c <= 'Z' { (c as u32 + 32) as u32 } else { c as u32 }
}

/// `a` and `b` are equal ignoring the case of ASCII letters.
pub open spec fn eq_ignore_ascii_case(a: Seq<char>, b: Seq<char>) -> bool {
    a.len() == b.len() && forall|i: int| 0 <= i < a.len() ==> ascii_lower(#[trigger] a[i]) == ascii_lower(b[i])
}

fn lower_code(c: char) -> (r: u32)
    ensures
        r == ascii_lower(c),
{
    if 'A' <= c && c <= 'Z' {
        c as u32 + 32
    } else {
        c as u32
    }
}

/// Whether `a` and `b` are equal ignoring the case of ASCII letters.
pub fn str_eq_ignore_ascii_case(a: &str, b: &str) -> (r: bool)
    ensures
        r == eq_ignore_ascii_case(a@, b@),
{
    let n = a.unicode_len();
    if n != b.unicode_len() {
        return false;
    }
    let mut i: usize = 0;
    while i < n
        invariant
            n == a@.len() == b@.len(),
            i <= n,
            forall|k: int| 0 <= k < i ==> ascii_lower(#[trigger] a@[k]) == ascii_lower(b@[k]),
        decreases n - i,
    {
        if lower_code(a.get_char(i)) != lower_code(b.get_char(i)) {
            return false;
        }
        i += 1;
    }
    true
}

/// Keeps the players other than `pid`.
pub open spec fn other_than(pid: Seq<char>) -> spec_fn(Player) -> bool {
    |p: Player| p.playerid@ != pid
}

/// Some id of `ids` names `p` (ignoring ASCII case).
pub open spec fn in_group(ids: Seq<String>, p: Seq<char>) -> bool {
    exists|k: int| 0 <= k < ids.len() && eq_ignore_ascii_case(ids[k]@, p)
}

/// The dialog for `player`: every other player (in list order), checked when the group
/// `synced` names it; the list has focus on its first row, Synchronize selected.
pub open spec fn sync_modal_for(m: SyncModal, player: Player, players: Seq<Player>, synced: Seq<String>) -> bool {
    &&& m.player_id == player.playerid
    &&& m.player_name == player.name
    &&& m.initial_synced_ids@ == synced
    &&& m.other_players@ == players.filter(other_than(player.playerid@))
    &&& m.checked@.len() == m.other_players@.len()
    &&& forall|i: int| 0 <= i < m.checked@.len() ==> #[trigger] m.checked@[i] == in_group(synced, m.other_players@[i].playerid@)
    &&& m.list_selected == 0
    &&& !m.focus_buttons
    &&& m.selected_button == 0
}

/// The sync group recorded for `pid` (empty when none is).
pub open spec fn group_of(groups: Map<Seq<char>, Vec<String>>, pid: Seq<char>) -> Seq<String> {
    if groups.contains_key(pid) { groups[pid]@ } else { Seq::empty() }
}

/// Opening the dialog for the player at `index` (nothing when there is none).
pub open spec fn open_sync_post(old: App, new: App, index: usize) -> bool {
    if index < old.players@.len() {
        let p = old.players@[index as int];
        &&& new == (App { sync_modal: new.sync_modal, ..old })
        &&& new.sync_modal matches Some(m) && sync_modal_for(m, p, old.players@, group_of(old.player_sync_groups@, p.playerid@))
    } else {
        new == old
    }
}

fn any_names(ids: &Vec<String>, p: &str) -> (r: bool)
    ensures
        r == in_group(ids@, p@),
{
    let mut i: usize = 0;
    while i < ids.len()
        invariant
            i <= ids@.len(),
            forall|k: int| 0 <= k < i ==> !eq_ignore_ascii_case(#[trigger] ids@[k]@, p@),
        decreases ids@.len() - i,
    {
        if str_eq_ignore_ascii_case(ids[i].as_str(), p) {
            return true;
        }
        i += 1;
    }
    false
}

fn clone_ids(v: &Vec<String>) -> (r: Vec<String>)
    ensures
        r@ == v@,
{
    let mut out: Vec<String> = Vec::new();
    let mut i: usize = 0;
    while i < v.len()
        invariant
            i <= v@.len(),
            out@ == v@.take(i as int),
        decreases v@.len() - i,
    {
        out.push(v[i].clone());
        assert(out@ =~= v@.take(i + 1));
        i += 1;
    }
    assert(v@.take(v@.len() as int) =~= v@);
    out
}

/// Opens the sync dialog for the player at `index`.
pub fn open_sync_modal(app: &mut App, index: usize)
    ensures
        open_sync_post(*old(app), *final(app), index),
{
    if index >= app.players.len() {
        return;
    }
    let pid = app.players[index].playerid.clone();
    let name = app.players[index].name.clone();
    let synced: Vec<String> = match app.player_sync_groups.get(pid.as_str()) {
        Some(v) => clone_ids(v),
        None => Vec::new(),
    };
    let ghost all = app.players@;
    let ghost keep = other_than(pid@);
    let mut others: Vec<Player> = Vec::new();
    let mut checked: Vec<bool> = Vec::new();
    let mut i: usize = 0;
    while i < app.players.len()
        invariant
            i <= all.len(),
            all == app.players@,
            keep == other_than(pid@),
            others@ == all.take(i as int).filter(keep),
            checked@.len() == others@.len(),
            forall|k: int| 0 <= k < checked@.len() ==> #[trigger] checked@[k] == in_group(synced@, others@[k].playerid@),
        decreases all.len() - i,
    {
        proof {
            reveal(Seq::filter);
            assert(all.take(i + 1).drop_last() =~= all.take(i as int));
            assert(all.take(i + 1).last() == all[i as int]);
        }
        if !crate::text::str_eq(app.players[i].playerid.as_str(), pid.as_str()) {
            let p = app.players[i].clone();
            let c = any_names(&synced, p.playerid.as_str());
            others.push(p);
            checked.push(c);
            assert(keep(all[i as int]));
            assert(all.take(i + 1).filter(keep) == all.take(i as int).filter(keep).push(all[i as int]));
        } else {
            assert(!keep(all[i as int]));
            assert(all.take(i + 1).filter(keep) == all.take(i as int).filter(keep));
        }
        i += 1;
    }
    assert(all.take(all.len() as int) =~= all);
    app.sync_modal = Some(SyncModal {
        player_id: pid,
        player_name: name,
        other_players: others,
        checked,
        initial_synced_ids: synced,
        list_selected: 0,
        focus_buttons: false,
        selected_button: 0,
    });
}

/// The ids of the other players that are checked, in list order.
pub open spec fn checked_ids(others: Seq<Player>, checked: Seq<bool>) -> Seq<Seq<char>>
    decreases others.len(),
{
    if others.len() == 0 {
        Seq::empty()
    } else {
        let n = (others.len() - 1) as int;
        let rest = checked_ids(others.drop_last(), checked);
        if n < checked.len() && checked[n] { rest.push(others.last().playerid@) } else { rest }
    }
}

/// The players of the initial group that are no longer checked leave it, in order.
pub open spec fn unsync_effects(initial: Seq<Seq<char>>, now: Seq<Seq<char>>) -> Seq<EffectV>
    decreases initial.len(),
{
    if initial.len() == 0 {
        Seq::empty()
    } else {
        let rest = unsync_effects(initial.drop_last(), now);
        if now.contains(initial.last()) { rest } else { rest.push(EffectV::Fire(Call::Unsync(initial.last()))) }
    }
}

/// The checked players join `master`'s group, in order.
pub open spec fn sync_effects(now: Seq<Seq<char>>, master: Seq<char>) -> Seq<EffectV> {
    now.map_values(|id: Seq<char>| EffectV::Fire(Call::SyncWith(id, master)))
}

/// The requests that make the group of the dialog's player exactly the checked players:
/// unchecked members leave, checked players join, and when nobody is checked any more but
/// the group was not empty, the player itself leaves too.
#[verifier::opaque]
pub open spec fn apply_sync_effects(m: SyncModal) -> Seq<EffectV> {
    let now = checked_ids(m.other_players@, m.checked@);
    let initial = m.initial_synced_ids@.map_values(|s: String| s@);
    unsync_effects(initial, now) + sync_effects(now, m.player_id@)
        + (if now.len() == 0 && initial.len() > 0 { seq![EffectV::Fire(Call::Unsync(m.player_id@))] } else { Seq::empty() })
}

fn checked_player_ids(others: &Vec<Player>, checked: &Vec<bool>) -> (r: Vec<String>)
    ensures
        r@.map_values(|s: String| s@) == checked_ids(others@, checked@),
{
    let mut out: Vec<String> = Vec::new();
    let mut i: usize = 0;
    while i < others.len()
        invariant
            i <= others@.len(),
            out@.map_values(|s: String| s@) == checked_ids(others@.take(i as int), checked@),
        decreases others@.len() - i,
    {
        assert(others@.take(i + 1).drop_last() =~= others@.take(i as int));
        assert(others@.take(i + 1).last() == others@[i as int]);
        if i < checked.len() && checked[i] {
            let ghost before = out@;
            out.push(others[i].playerid.clone());
            assert(out@.map_values(|s: String| s@) =~= before.map_values(|s: String| s@).push(others@[i as int].playerid@));
        }
        i += 1;
    }
    assert(others@.take(others@.len() as int) =~= others@);
    out
}

fn contains_id(ids: &Vec<String>, id: &str) -> (r: bool)
    ensures
        r == ids@.map_values(|s: String| s@).contains(id@),
{
    let mut i: usize = 0;
    while i < ids.len()
        invariant
            i <= ids@.len(),
            forall|k: int| 0 <= k < i ==> (#[trigger] ids@[k])@ != id@,
        decreases ids@.len() - i,
    {
        if crate::text::str_eq(ids[i].as_str(), id) {
            assert(ids@.map_values(|s: String| s@)[i as int] == id@);
            return true;
        }
        i += 1;
    }
    assert(!ids@.map_values(|s: String| s@).contains(id@)) by {
        let mv = ids@.map_values(|s: String| s@);
        assert forall|k: int| 0 <= k < mv.len() implies #[trigger] mv[k] != id@ by {
            assert(ids@[k]@ != id@);
        }
    }
    false
}

/// The requests that carry out the dialog's choices (see `apply_sync_effects`).
pub fn sync_requests(m: &SyncModal) -> (r: Effects)
    ensures
        effects_v(r) == apply_sync_effects(*m),
{
    proof {
        reveal(apply_sync_effects);
    }
    let now = checked_player_ids(&m.other_players, &m.checked);
    let ghost nowv = now@.map_values(|s: String| s@);
    let ghost initial = m.initial_synced_ids@.map_values(|s: String| s@);
    let mut out: Effects = no_effects();
    let mut i: usize = 0;
    while i < m.initial_synced_ids.len()
        invariant
            i <= m.initial_synced_ids@.len(),
            nowv == now@.map_values(|s: String| s@),
            initial == m.initial_synced_ids@.map_values(|s: String| s@),
            effects_v(out) == unsync_effects(initial.take(i as int), nowv),
        decreases m.initial_synced_ids@.len() - i,
    {
        assert(initial.take(i + 1).drop_last() =~= initial.take(i as int));
        assert(initial.take(i + 1).last() == m.initial_synced_ids@[i as int]@);
        if !contains_id(&now, m.initial_synced_ids[i].as_str()) {
            let e = Effect::Fire(Call::Unsync(m.initial_synced_ids[i].clone()));
            let ghost before = out;
            out.push(e);
            proof {
                lemma_effects_v_push(before, out, e);
            }
        }
        i += 1;
    }
    assert(initial.take(initial.len() as int) =~= initial);
    let ghost mid = effects_v(out);
    let mut j: usize = 0;
    while j < now.len()
        invariant
            j <= now@.len(),
            nowv == now@.map_values(|s: String| s@),
            effects_v(out) == mid + sync_effects(nowv.take(j as int), m.player_id@),
        decreases now@.len() - j,
    {
        let e = Effect::Fire(Call::SyncWith(now[j].clone(), m.player_id.clone()));
        let ghost before = out;
        out.push(e);
        proof {
            lemma_effects_v_push(before, out, e);
            assert(sync_effects(nowv.take(j + 1), m.player_id@) =~= sync_effects(nowv.take(j as int), m.player_id@).push(effect_v(e)));
            assert(mid + sync_effects(nowv.take(j + 1), m.player_id@) =~= (mid + sync_effects(nowv.take(j as int), m.player_id@)).push(effect_v(e)));
        }
        j += 1;
    }
    assert(nowv.take(nowv.len() as int) =~= nowv);
    if now.len() == 0 && m.initial_synced_ids.len() > 0 {
        let e = Effect::Fire(Call::Unsync(m.player_id.clone()));
        let ghost before = out;
        out.push(e);
        proof {
            lemma_effects_v_push(before, out, e);
        }
        assert(effects_v(out) =~= apply_sync_effects(*m));
    } else {
        assert(effects_v(out) =~= apply_sync_effects(*m));
    }
    out
}

/// A list row or a button of the dialog after a key; as (checked, row, buttons focused,
/// button): Up/`k` moves up the list, and from the buttons back to its last row; Down/`j`
/// moves down the list and from its last row to the buttons; Tab switches between list and
/// buttons; Space (in the list) toggles the row; Left/`h` and Right/`l` (on the buttons)
/// select Synchronize or Cancel; Enter in the list toggles the row.
#[verifier::opaque]
pub open spec fn sync_step(m: SyncModal, key: KeyCode) -> (Seq<bool>, usize, bool, u8) {
    let n = m.other_players@.len();
    let c = m.checked@;
    let ls = m.list_selected;
    let toggled = if ls < c.len() { c.update(ls as int, !c[ls as int]) } else { c };
    if is_up_key(key) {
        if !m.focus_buttons {
            (c, if ls > 0 { (ls - 1) as usize } else { ls }, false, m.selected_button)
        } else {
            (c, if n > 0 { (n - 1) as usize } else { ls }, false, m.selected_button)
        }
    } else if is_down_key(key) {
        if !m.focus_buttons {
            if ls + 1 < n { (c, (ls + 1) as usize, false, m.selected_button) } else { (c, ls, true, m.selected_button) }
        } else {
            (c, ls, true, m.selected_button)
        }
    } else if key == KeyCode::Tab {
        (c, ls, !m.focus_buttons, m.selected_button)
    } else if key == KeyCode::Char(' ') || (key == KeyCode::Enter && !m.focus_buttons) {
        (if !m.focus_buttons { toggled } else { c }, ls, m.focus_buttons, m.selected_button)
    } else if key == KeyCode::Left || key == KeyCode::Char('h') {
        (c, ls, m.focus_buttons, if m.focus_buttons { 0u8 } else { m.selected_button })
    } else if key == KeyCode::Right || key == KeyCode::Char('l') {
        (c, ls, m.focus_buttons, if m.focus_buttons { 1u8 } else { m.selected_button })
    } else {
        (c, ls, m.focus_buttons, m.selected_button)
    }
}

/// The dialog `m2` is `m` after step `t`.
pub open spec fn modal_after(m: SyncModal, m2: SyncModal, t: (Seq<bool>, usize, bool, u8)) -> bool {
    &&& m2 == (SyncModal { checked: m2.checked, list_selected: t.1, focus_buttons: t.2, selected_button: t.3, ..m })
    &&& m2.checked@ == t.0
}

/// A key while the sync dialog is open: Esc closes it; Enter on Synchronize closes it and
/// sends the requests of `apply_sync_effects`, on Cancel just closes it; other keys act as
/// `sync_step` says.
pub open spec fn sync_key_post(old: App, new: App, effects: Seq<EffectV>, key: KeyCode) -> bool {
    match old.sync_modal {
        None => new == old && effects.len() == 0,
        Some(m) => if key == KeyCode::Esc || (key == KeyCode::Enter && m.focus_buttons && m.selected_button != 0) {
            new == (App { sync_modal: None, ..old }) && effects.len() == 0
        } else if key == KeyCode::Enter && m.focus_buttons {
            new == (App { sync_modal: None, ..old }) && effects == apply_sync_effects(m)
        } else {
            &&& new == (App { sync_modal: new.sync_modal, ..old })
            &&& new.sync_modal matches Some(m2) && modal_after(m, m2, sync_step(m, key))
            &&& effects.len() == 0
        },
    }
}

fn step_modal(m: &mut SyncModal, key: KeyCode)
    requires
        is_down_key(key) ==> old(m).list_selected < usize::MAX,
    ensures
        modal_after(*old(m), *final(m), sync_step(*old(m), key)),
{
    proof {
        reveal(sync_step);
    }
    let n = m.other_players.len();
    if key == KeyCode::Up || key == KeyCode::Char('k') {
        if !m.focus_buttons {
            if m.list_selected > 0 {
                m.list_selected = m.list_selected - 1;
            }
        } else {
            m.focus_buttons = false;
            if n > 0 {
                m.list_selected = n - 1;
            }
        }
    } else if key == KeyCode::Down || key == KeyCode::Char('j') {
        if !m.focus_buttons {
            if m.list_selected + 1 < n {
                m.list_selected = m.list_selected + 1;
            } else {
                m.focus_buttons = true;
            }
        }
    } else if key == KeyCode::Tab {
        m.focus_buttons = !m.focus_buttons;
    } else if key == KeyCode::Char(' ') || (key == KeyCode::Enter && !m.focus_buttons) {
        if !m.focus_buttons && m.list_selected < m.checked.len() {
            let v = m.checked[m.list_selected];
            m.checked.set(m.list_selected, !v);
        }
    } else if key == KeyCode::Left || key == KeyCode::Char('h') {
        if m.focus_buttons {
            m.selected_button = 0;
        }
    } else if key == KeyCode::Right || key == KeyCode::Char('l') {
        if m.focus_buttons {
            m.selected_button = 1;
        }
    }
}

pub(crate) fn take_sync_modal(app: &mut App) -> (r: Option<SyncModal>)
    ensures
        r == old(app).sync_modal,
        *final(app) == (App { sync_modal: None, ..*old(app) }),
{
    let mut m: Option<SyncModal> = None;
    std::mem::swap(&mut m, &mut app.sync_modal);
    m
}

pub(crate) fn put_sync_modal(app: &mut App, m: SyncModal)
    ensures
        *final(app) == (App { sync_modal: Some(m), ..*old(app) }),
{
    app.sync_modal = Some(m);
}

/// A key while the sync dialog is open.
#[verifier::rlimit(30)]
pub fn handle_sync_modal_key(app: &mut App, key: KeyInput) -> (r: Effects)
    requires
        is_down_key(key.code) ==> (old(app).sync_modal matches Some(m) ==> m.list_selected < usize::MAX),
    ensures
        sync_key_post(*old(app), *final(app), effects_v(r), key.code),
{
    let mut m = match take_sync_modal(app) {
        Some(m) => m,
        None => {
            return no_effects();
        },
    };
    let code = key.code;
    if code == KeyCode::Esc || (code == KeyCode::Enter && m.focus_buttons && m.selected_button != 0) {
        no_effects()
    } else if code == KeyCode::Enter && m.focus_buttons {
        sync_requests(&m)
    } else {
        step_modal(&mut m, code);
        put_sync_modal(app, m);
        no_effects()
    }
}

} // verus!
