//! Volume, mute and power control of one player or of all of them.
//!
//! A local change takes effect in the state at once, is marked pending (with the time it was
//! made, so the next poll does not undo it) and is sent to the server through the debounced
//! volume channel.
use vstd::prelude::*;
use crate::api::{NowPlaying, Player};
use crate::app::{App, MainView};
use crate::effects::{Call, Effect, EffectV, Effects, effect_v, effects_v, ids_v, lemma_effects_v_push, no_effects, one_effect};
use crate::table::StrMap;
use crate::text::str_eq;
use crate::geometry::Area;

verus! {

/// `v + delta` kept within 0..=100.
pub open spec fn clamp_volume(v: int, delta: int) -> u8 {
    let x = v + delta;
    if x < 0 {
        0
    } else if x > 100 {
        100
    } else {
        x as u8
    }
}

/// The volume stored for `pid`, or `default` when none is.
pub open spec fn volume_or<V>(m: Map<Seq<char>, V>, pid: Seq<char>, default: V) -> V {
    if m.contains_key(pid) { m[pid] } else { default }
}

/// The ids of the players, in list order.
pub open spec fn player_ids_v(players: Seq<Player>) -> Seq<Seq<char>> {
    players.map_values(|p: Player| p.playerid@)
}

/// The volumes after moving each player of `ids` in turn by `delta` (from 50 when no volume
/// is known yet).
pub open spec fn adjust_all(vols: Map<Seq<char>, u8>, ids: Seq<Seq<char>>, delta: int) -> Map<Seq<char>, u8>
    decreases ids.len(),
{
    if ids.len() == 0 {
        vols
    } else {
        let m = adjust_all(vols, ids.drop_last(), delta);
        m.insert(ids.last(), clamp_volume(volume_or(m, ids.last(), 50u8) as int, delta))
    }
}

/// The volume messages sent while moving each player of `ids` by `delta`.
pub open spec fn adjust_all_effects(vols: Map<Seq<char>, u8>, ids: Seq<Seq<char>>, delta: int) -> Seq<EffectV>
    decreases ids.len(),
{
    if ids.len() == 0 {
        Seq::empty()
    } else {
        let m = adjust_all(vols, ids.drop_last(), delta);
        adjust_all_effects(vols, ids.drop_last(), delta).push(
            EffectV::SendVolume(ids.last(), clamp_volume(volume_or(m, ids.last(), 50u8) as int, delta)),
        )
    }
}

/// The pending marks after marking every player of `ids` at time `now`.
pub open spec fn mark_pending(p: Map<Seq<char>, u64>, ids: Seq<Seq<char>>, now: u64) -> Map<Seq<char>, u64>
    decreases ids.len(),
{
    if ids.len() == 0 {
        p
    } else {
        mark_pending(p, ids.drop_last(), now).insert(ids.last(), now)
    }
}

/// The playing state with its volume replaced.
pub open spec fn with_volume(np: Option<NowPlaying>, v: u8) -> Option<NowPlaying> {
    match np {
        Some(n) => Some(NowPlaying { volume: v, ..n }),
        None => None,
    }
}

/// The state changed only in its volumes, mute memory, pending marks and playing state.
pub open spec fn volume_frame(old: App, new: App) -> bool {
    new == (App {
        player_volumes: new.player_volumes,
        muted_volumes: new.muted_volumes,
        volume_pending: new.volume_pending,
        now_playing: new.now_playing,
        ..old
    })
}

/// Moves every player of `ids` by `delta` in turn.
fn adjust_players(vols: &mut StrMap<u8>, pending: &mut StrMap<u64>, ids: &Vec<String>, delta: i16, now: u64) -> (r: Effects)
    requires
        -100 <= delta <= 100,
    ensures
        final(vols)@ == adjust_all(old(vols)@, ids_v(*ids), delta as int),
        final(pending)@ == mark_pending(old(pending)@, ids_v(*ids), now),
        effects_v(r) == adjust_all_effects(old(vols)@, ids_v(*ids), delta as int),
{
    let ghost v0 = vols@;
    let ghost p0 = pending@;
    let mut out = no_effects();
    let mut i: usize = 0;
    while i < ids.len()
        invariant
            i <= ids@.len(),
            -100 <= delta <= 100,
            vols@ == adjust_all(v0, ids_v(*ids).take(i as int), delta as int),
            pending@ == mark_pending(p0, ids_v(*ids).take(i as int), now),
            effects_v(out) == adjust_all_effects(v0, ids_v(*ids).take(i as int), delta as int),
        decreases ids@.len() - i,
    {
        let ghost pre = ids_v(*ids).take(i as int);
        let ghost next = ids_v(*ids).take(i + 1);
        assert(next.drop_last() =~= pre);
        assert(next.last() == ids@[i as int]@);
        let pid = ids[i].as_str();
        let cur: u8 = match vols.get(pid) {
            Some(v) => *v,
            None => 50,
        };
        let nv = clamp_delta(cur, delta);
        vols.insert(pid, nv);
        pending.insert(pid, now);
        let e = Effect::SendVolume(ids[i].clone(), nv);
        let ghost before = out@;
        out.push(e);
        proof {
            lemma_effects_v_push_from(before, out, e);
        }
        i += 1;
    }
    assert(ids_v(*ids).take(ids@.len() as int) =~= ids_v(*ids));
    out
}

/// Pushing onto a list of effects pushes its contract form.
proof fn lemma_effects_v_push_from(
    before: Seq<Effect<String, Vec<(String, String)>, Vec<String>>>,
    after: Effects,
    e: Effect<String, Vec<(String, String)>, Vec<String>>,
)
    requires
        after@ == before.push(e),
    ensures
        effects_v(after) == before.map_values(|x: Effect<String, Vec<(String, String)>, Vec<String>>| effect_v(x)).push(effect_v(e)),
{
    assert(effects_v(after) =~= before.map_values(|x: Effect<String, Vec<(String, String)>, Vec<String>>| effect_v(x)).push(effect_v(e)));
}

/// `v + delta` kept within 0..=100.
pub fn clamp_delta(v: u8, delta: i16) -> (r: u8)
    requires
        -100 <= delta <= 100,
    ensures
        r == clamp_volume(v as int, delta as int),
{
    let x: i16 = v as i16 + delta;
    if x < 0 {
        0
    } else if x > 100 {
        100
    } else {
        x as u8
    }
}

/// Every player moved by `delta`; with global volume control on, the playing volume
/// follows the active player's new volume.
pub open spec fn adjust_all_post(old: App, new: App, effects: Seq<EffectV>, delta: int, now: u64) -> bool {
    let ids = player_ids_v(old.players@);
    let vols2 = adjust_all(old.player_volumes@, ids, delta);
    &&& volume_frame(old, new)
    &&& new.muted_volumes@ == old.muted_volumes@
    &&& new.player_volumes@ == vols2
    &&& new.volume_pending@ == mark_pending(old.volume_pending@, ids, now)
    &&& effects == adjust_all_effects(old.player_volumes@, ids, delta)
    &&& new.now_playing == (match old.active_player {
        Some(a) => if old.global_volume_control && vols2.contains_key(a@) {
            with_volume(old.now_playing, vols2[a@])
        } else {
            old.now_playing
        },
        None => old.now_playing,
    })
}

/// Player `pid` moved by `delta` from its known volume (50 when unknown); the playing
/// volume follows when `pid` is the active player.
pub open spec fn adjust_one_post(old: App, new: App, effects: Seq<EffectV>, pid: Seq<char>, delta: int, now: u64) -> bool {
    let nv = clamp_volume(volume_or(old.player_volumes@, pid, 50u8) as int, delta);
    &&& volume_frame(old, new)
    &&& new.muted_volumes@ == old.muted_volumes@
    &&& new.player_volumes@ == old.player_volumes@.insert(pid, nv)
    &&& new.volume_pending@ == old.volume_pending@.insert(pid, now)
    &&& effects == seq![EffectV::SendVolume(pid, nv)]
    &&& new.now_playing == (if old.active_player matches Some(a) && a@ == pid {
        with_volume(old.now_playing, nv)
    } else {
        old.now_playing
    })
}

/// The active player moved by `delta` from its playing volume (50 when nothing plays).
pub open spec fn adjust_active_post(old: App, new: App, effects: Seq<EffectV>, delta: int, now: u64) -> bool {
    match old.active_player {
        Some(a) => {
            let cur = match old.now_playing {
                Some(n) => n.volume,
                None => 50u8,
            };
            let nv = clamp_volume(cur as int, delta);
            &&& volume_frame(old, new)
            &&& new.muted_volumes@ == old.muted_volumes@
            &&& new.player_volumes@ == old.player_volumes@.insert(a@, nv)
            &&& new.volume_pending@ == old.volume_pending@.insert(a@, now)
            &&& effects == seq![EffectV::SendVolume(a@, nv)]
            &&& new.now_playing == with_volume(old.now_playing, nv)
        },
        None => new == old && effects.len() == 0,
    }
}

/// The volume after Volume Up/Down by `delta`: every player when global volume control is
/// on or the all-players row of the Players view is selected; the selected player in the
/// Players view; otherwise the active player.
pub open spec fn adjust_volume_post(old: App, new: App, effects: Seq<EffectV>, delta: int, now: u64) -> bool {
    if old.global_volume_control || (old.main_view is Players && old.players_focus_global) {
        adjust_all_post(old, new, effects, delta, now)
    } else if old.main_view is Players {
        if old.main_selected < old.players@.len() {
            adjust_one_post(old, new, effects, old.players@[old.main_selected as int].playerid@, delta, now)
        } else {
            new == old && effects.len() == 0
        }
    } else {
        adjust_active_post(old, new, effects, delta, now)
    }
}

fn set_playing_volume(np: &mut Option<NowPlaying>, v: u8)
    ensures
        *final(np) == with_volume(*old(np), v),
{
    if let Some(n) = np {
        n.volume = v;
    }
}

fn adjust_all_volumes(app: &mut App, delta: i16, now: u64) -> (r: Effects)
    requires
        -100 <= delta <= 100,
    ensures
        adjust_all_post(*old(app), *final(app), effects_v(r), delta as int, now),
{
    let ids = app.player_ids();
    assert(ids_v(ids) =~= player_ids_v(app.players@));
    let effects = adjust_players(&mut app.player_volumes, &mut app.volume_pending, &ids, delta, now);
    if app.global_volume_control {
        if let Some(a) = &app.active_player {
            let v = match app.player_volumes.get(a.as_str()) {
                Some(v) => Some(*v),
                None => None,
            };
            if let Some(v) = v {
                set_playing_volume(&mut app.now_playing, v);
            }
        }
    }
    effects
}

fn adjust_one_volume(app: &mut App, pid: String, delta: i16, now: u64) -> (r: Effects)
    requires
        -100 <= delta <= 100,
    ensures
        adjust_one_post(*old(app), *final(app), effects_v(r), pid@, delta as int, now),
{
    let cur: u8 = match app.player_volumes.get(pid.as_str()) {
        Some(v) => *v,
        None => 50,
    };
    let nv = clamp_delta(cur, delta);
    app.player_volumes.insert(pid.as_str(), nv);
    app.volume_pending.insert(pid.as_str(), now);
    let is_active = match &app.active_player {
        Some(a) => str_eq(a.as_str(), pid.as_str()),
        None => false,
    };
    if is_active {
        set_playing_volume(&mut app.now_playing, nv);
    }
    one_effect(Effect::SendVolume(pid, nv))
}

fn adjust_active_volume(app: &mut App, delta: i16, now: u64) -> (r: Effects)
    requires
        -100 <= delta <= 100,
    ensures
        adjust_active_post(*old(app), *final(app), effects_v(r), delta as int, now),
{
    match app.active_pid() {
        Some(a) => {
            let cur: u8 = match &app.now_playing {
                Some(n) => n.volume,
                None => 50,
            };
            let nv = clamp_delta(cur, delta);
            set_playing_volume(&mut app.now_playing, nv);
            app.player_volumes.insert(a.as_str(), nv);
            app.volume_pending.insert(a.as_str(), now);
            one_effect(Effect::SendVolume(a, nv))
        },
        None => no_effects(),
    }
}

/// Moves the volume by `delta` (see `adjust_volume_post`); `now` is the time in
/// milliseconds recorded with the pending mark.
pub fn adjust_volume(app: &mut App, delta: i16, now: u64) -> (r: Effects)
    requires
        -100 <= delta <= 100,
    ensures
        adjust_volume_post(*old(app), *final(app), effects_v(r), delta as int, now),
{
    let players_view = matches!(app.main_view, MainView::Players);
    if app.global_volume_control || (players_view && app.players_focus_global) {
        adjust_all_volumes(app, delta, now)
    } else if players_view {
        if app.main_selected < app.players.len() {
            let pid = app.players[app.main_selected].playerid.clone();
            adjust_one_volume(app, pid, delta, now)
        } else {
            no_effects()
        }
    } else {
        adjust_active_volume(app, delta, now)
    }
}

/// Mute or unmute `pid`: a player with a volume above 0 is muted and its volume remembered;
/// a silent one gets back the remembered volume (50 when none was), and the memory is
/// dropped. Gives the new volumes, the new memory and the player's new volume.
pub open spec fn mute_toggle(vols: Map<Seq<char>, u8>, muted: Map<Seq<char>, u8>, pid: Seq<char>) -> (Map<Seq<char>, u8>, Map<Seq<char>, u8>, u8) {
    let cur = volume_or(vols, pid, 0u8);
    if cur > 0 {
        (vols.insert(pid, 0), muted.insert(pid, cur), 0)
    } else {
        let nv = volume_or(muted, pid, 50u8);
        (vols.insert(pid, nv), muted.remove(pid), nv)
    }
}

/// Volumes, mute memory, pending marks, playing state and messages sent so far.
pub type MuteState = (Map<Seq<char>, u8>, Map<Seq<char>, u8>, Map<Seq<char>, u64>, Option<NowPlaying>, Seq<EffectV>);

/// One mute toggle of `pid` applied to `st`; the playing volume follows when `pid` is the
/// active player.
pub open spec fn mute_step(st: MuteState, active: Option<Seq<char>>, pid: Seq<char>, now: u64) -> MuteState {
    let t = mute_toggle(st.0, st.1, pid);
    (
        t.0,
        t.1,
        st.2.insert(pid, now),
        if active == Some(pid) { with_volume(st.3, t.2) } else { st.3 },
        st.4.push(EffectV::SendVolume(pid, t.2)),
    )
}

/// Mute toggles of each player of `ids` in turn.
pub open spec fn mute_all(st: MuteState, active: Option<Seq<char>>, ids: Seq<Seq<char>>, now: u64) -> MuteState
    decreases ids.len(),
{
    if ids.len() == 0 {
        st
    } else {
        mute_step(mute_all(st, active, ids.drop_last(), now), active, ids.last(), now)
    }
}

/// The volume state of an application state, with no messages yet.
pub open spec fn mute_state_of(app: App) -> MuteState {
    (app.player_volumes@, app.muted_volumes@, app.volume_pending@, app.now_playing, Seq::empty())
}

/// `new` holds the volume state `st` and otherwise equals `old`; `effects` are its messages.
pub open spec fn holds_mute_state(old: App, new: App, effects: Seq<EffectV>, st: MuteState) -> bool {
    &&& volume_frame(old, new)
    &&& new.player_volumes@ == st.0
    &&& new.muted_volumes@ == st.1
    &&& new.volume_pending@ == st.2
    &&& new.now_playing == st.3
    &&& effects == st.4
}

fn mute_one(
    vols: &mut StrMap<u8>,
    muted: &mut StrMap<u8>,
    pending: &mut StrMap<u64>,
    np: &mut Option<NowPlaying>,
    active: &Option<String>,
    pid: &str,
    now: u64,
) -> (r: Effect<String, Vec<(String, String)>, Vec<String>>)
    ensures
        ({
            let st = mute_step((old(vols)@, old(muted)@, old(pending)@, *old(np), Seq::empty()), crate::effects::opt_v(*active), pid@, now);
            &&& final(vols)@ == st.0
            &&& final(muted)@ == st.1
            &&& final(pending)@ == st.2
            &&& *final(np) == st.3
            &&& effect_v(r) == EffectV::SendVolume(pid@, mute_toggle(old(vols)@, old(muted)@, pid@).2)
        }),
{
    let cur: u8 = match vols.get(pid) {
        Some(v) => *v,
        None => 0,
    };
    let nv: u8 = if cur > 0 {
        muted.insert(pid, cur);
        0
    } else {
        match muted.remove(pid) {
            Some(v) => v,
            None => 50,
        }
    };
    vols.insert(pid, nv);
    pending.insert(pid, now);
    let is_active = match active {
        Some(a) => str_eq(a.as_str(), pid),
        None => false,
    };
    if is_active {
        set_playing_volume(np, nv);
    }
    Effect::SendVolume(crate::text::to_owned_string(pid), nv)
}

/// Mutes or unmutes player `pid` (see `mute_toggle`), marking the change pending at `now`.
pub fn toggle_mute_player(app: &mut App, pid: &str, now: u64) -> (r: Effects)
    ensures
        holds_mute_state(*old(app), *final(app), effects_v(r),
            mute_step(mute_state_of(*old(app)), crate::effects::opt_v(old(app).active_player), pid@, now)),
{
    let e = mute_one(&mut app.player_volumes, &mut app.muted_volumes, &mut app.volume_pending, &mut app.now_playing, &app.active_player, pid, now);
    one_effect(e)
}

/// Mutes or unmutes every known player in turn.
pub fn toggle_mute_all(app: &mut App, now: u64) -> (r: Effects)
    ensures
        holds_mute_state(*old(app), *final(app), effects_v(r),
            mute_all(mute_state_of(*old(app)), crate::effects::opt_v(old(app).active_player), player_ids_v(old(app).players@), now)),
{
    let ids = app.player_ids();
    assert(ids_v(ids) =~= player_ids_v(app.players@));
    let ghost a0 = *app;
    let ghost st0 = mute_state_of(*app);
    let ghost active = crate::effects::opt_v(app.active_player);
    let mut out = no_effects();
    let mut i: usize = 0;
    while i < ids.len()
        invariant
            i <= ids@.len(),
            ({
                let st = mute_all(st0, active, ids_v(ids).take(i as int), now);
                &&& app.player_volumes@ == st.0
                &&& app.muted_volumes@ == st.1
                &&& app.volume_pending@ == st.2
                &&& app.now_playing == st.3
                &&& effects_v(out) == st.4
            }),
            active == crate::effects::opt_v(app.active_player),
            volume_frame(a0, *app),
        decreases ids@.len() - i,
    {
        let ghost pre = ids_v(ids).take(i as int);
        let ghost next = ids_v(ids).take(i + 1);
        assert(next.drop_last() =~= pre);
        assert(next.last() == ids@[i as int]@);
        let e = mute_one(&mut app.player_volumes, &mut app.muted_volumes, &mut app.volume_pending, &mut app.now_playing, &app.active_player, ids[i].as_str(), now);
        let ghost before = out@;
        out.push(e);
        proof {
            lemma_effects_v_push_from(before, out, e);
        }
        i += 1;
    }
    assert(ids_v(ids).take(ids@.len() as int) =~= ids_v(ids));
    out
}

/// The volume state after Mute: every player when global volume control is on or the
/// all-players row of the Players view is selected; the selected player in the Players
/// view; otherwise the active player.
pub open spec fn toggle_mute_post(old: App, new: App, effects: Seq<EffectV>, now: u64) -> bool {
    let active = crate::effects::opt_v(old.active_player);
    if old.global_volume_control || (old.main_view is Players && old.players_focus_global) {
        holds_mute_state(old, new, effects, mute_all(mute_state_of(old), active, player_ids_v(old.players@), now))
    } else if old.main_view is Players {
        if old.main_selected < old.players@.len() {
            holds_mute_state(old, new, effects, mute_step(mute_state_of(old), active, old.players@[old.main_selected as int].playerid@, now))
        } else {
            new == old && effects.len() == 0
        }
    } else {
        match old.active_player {
            Some(a) => holds_mute_state(old, new, effects, mute_step(mute_state_of(old), active, a@, now)),
            None => new == old && effects.len() == 0,
        }
    }
}

/// Mute or unmute as the Mute key asks (see `toggle_mute_post`).
pub fn toggle_mute(app: &mut App, now: u64) -> (r: Effects)
    ensures
        toggle_mute_post(*old(app), *final(app), effects_v(r), now),
{
    let players_view = matches!(app.main_view, MainView::Players);
    if app.global_volume_control || (players_view && app.players_focus_global) {
        toggle_mute_all(app, now)
    } else if players_view {
        if app.main_selected < app.players.len() {
            let pid = app.players[app.main_selected].playerid.clone();
            toggle_mute_player(app, pid.as_str(), now)
        } else {
            no_effects()
        }
    } else {
        match app.active_pid() {
            Some(a) => toggle_mute_player(app, a.as_str(), now),
            None => no_effects(),
        }
    }
}

/// Every player is powered on (and there is at least one).
pub open spec fn all_powered(players: Seq<Player>) -> bool {
    players.len() > 0 && forall|i: int| 0 <= i < players.len() ==> players[i].power > 0
}

/// The requests of the Power key, which only acts in the Players view: on the all-players
/// row, power every player on when any is off and all off otherwise; on a player row,
/// toggle that player.
pub open spec fn toggle_power_effects(app: App) -> Seq<EffectV> {
    if app.main_view is Players {
        if app.players_focus_global {
            seq![EffectV::PowerAll(player_ids_v(app.players@), !all_powered(app.players@))]
        } else if app.main_selected < app.players@.len() {
            let p = app.players@[app.main_selected as int];
            seq![EffectV::Fire(Call::SetPower(p.playerid@, p.power == 0))]
        } else {
            Seq::empty()
        }
    } else {
        Seq::empty()
    }
}

/// The requests of the Power key (see `toggle_power_effects`); the state is not changed.
pub fn toggle_power(app: &App) -> (r: Effects)
    ensures
        effects_v(r) == toggle_power_effects(*app),
{
    if !matches!(app.main_view, MainView::Players) {
        return no_effects();
    }
    if app.players_focus_global {
        let mut all_on = app.players.len() > 0;
        let mut i: usize = 0;
        while i < app.players.len()
            invariant
                i <= app.players@.len(),
                all_on == (app.players@.len() > 0 && forall|k: int| 0 <= k < i ==> app.players@[k].power > 0),
            decreases app.players@.len() - i,
        {
            if app.players[i].power == 0 {
                all_on = false;
            }
            i += 1;
        }
        let ids = app.player_ids();
        assert(ids_v(ids) =~= player_ids_v(app.players@));
        one_effect(Effect::PowerAll(ids, !all_on))
    } else if app.main_selected < app.players.len() {
        let p = &app.players[app.main_selected];
        one_effect(Effect::Fire(Call::SetPower(p.playerid.clone(), p.power == 0)))
    } else {
        no_effects()
    }
}

/// The volume a click at column `col` of volume bar `bar` asks for: the share of the bar
/// left of the click, in percent, rounded to the nearest whole (halves up); clicks left of
/// the bar give 0 and clicks right of it 100.
pub open spec fn spec_click_volume(col: u16, bar: Area) -> u8 {
    let d: int = if col <= bar.x { 0 } else if col - bar.x >= bar.width { bar.width as int } else { col - bar.x };
    ((200 * d + bar.width) / (2 * bar.width)) as u8
}

/// The volume a click on a volume bar asks for.
pub fn click_volume(col: u16, bar: Area) -> (r: u8)
    requires
        bar.width > 0,
    ensures
        r == spec_click_volume(col, bar),
        r <= 100,
{
    let w: u32 = bar.width as u32;
    let d: u32 = if col <= bar.x { 0 } else if (col - bar.x) as u32 >= w { w } else { (col - bar.x) as u32 };
    let q: u32 = (200 * d + w) / (2 * w);
    proof {
        assert(q <= 100) by (nonlinear_arith)
            requires
                d <= w,
                w > 0,
                q == (200 * d + w) / (2 * w),
        {
            assert(200 * d + w <= 201 * w);
            assert(201 * w < 202 * w);
            assert(200 * d + w < 2 * w * 101);
        }
    }
    q as u8
}

/// Player `pid` set to volume `v`, the change marked pending at `now`; the playing volume
/// follows when `pid` is the active player.
pub open spec fn set_volume_step(st: MuteState, active: Option<Seq<char>>, pid: Seq<char>, v: u8, now: u64) -> MuteState {
    (
        st.0.insert(pid, v),
        st.1,
        st.2.insert(pid, now),
        if active == Some(pid) { with_volume(st.3, v) } else { st.3 },
        st.4.push(EffectV::SendVolume(pid, v)),
    )
}

/// Each player of `ids` set to volume `v` in turn.
pub open spec fn set_volumes(st: MuteState, active: Option<Seq<char>>, ids: Seq<Seq<char>>, v: u8, now: u64) -> MuteState
    decreases ids.len(),
{
    if ids.len() == 0 {
        st
    } else {
        set_volume_step(set_volumes(st, active, ids.drop_last(), v, now), active, ids.last(), v, now)
    }
}

fn set_one_volume(
    vols: &mut StrMap<u8>,
    pending: &mut StrMap<u64>,
    np: &mut Option<NowPlaying>,
    active: &Option<String>,
    pid: &str,
    v: u8,
    now: u64,
) -> (r: Effect<String, Vec<(String, String)>, Vec<String>>)
    ensures
        final(vols)@ == old(vols)@.insert(pid@, v),
        final(pending)@ == old(pending)@.insert(pid@, now),
        *final(np) == (if crate::effects::opt_v(*active) == Some(pid@) { with_volume(*old(np), v) } else { *old(np) }),
        effect_v(r) == EffectV::SendVolume(pid@, v),
{
    vols.insert(pid, v);
    pending.insert(pid, now);
    let is_active = match active {
        Some(a) => str_eq(a.as_str(), pid),
        None => false,
    };
    if is_active {
        set_playing_volume(np, v);
    }
    Effect::SendVolume(crate::text::to_owned_string(pid), v)
}

/// A click at column `col` of player `pid`'s volume bar `bar` sets its volume (see
/// `spec_click_volume`); nothing happens on a bar without width.
pub fn set_volume_from_click(app: &mut App, col: u16, bar: Area, pid: &str, now: u64) -> (r: Effects)
    ensures
        bar.width == 0 ==> *final(app) == *old(app) && effects_v(r).len() == 0,
        bar.width > 0 ==> holds_mute_state(*old(app), *final(app), effects_v(r),
            set_volume_step(mute_state_of(*old(app)), crate::effects::opt_v(old(app).active_player), pid@,
                spec_click_volume(col, bar), now)),
{
    if bar.width == 0 {
        return no_effects();
    }
    let v = click_volume(col, bar);
    let e = set_one_volume(&mut app.player_volumes, &mut app.volume_pending, &mut app.now_playing, &app.active_player, pid, v, now);
    let r = one_effect(e);
    r
}

/// A click at column `col` of the all-players volume bar `bar` sets every player to that
/// volume in turn; nothing happens on a bar without width.
pub fn set_all_volumes_from_click(app: &mut App, col: u16, bar: Area, now: u64) -> (r: Effects)
    ensures
        bar.width == 0 ==> *final(app) == *old(app) && effects_v(r).len() == 0,
        bar.width > 0 ==> holds_mute_state(*old(app), *final(app), effects_v(r),
            set_volumes(mute_state_of(*old(app)), crate::effects::opt_v(old(app).active_player),
                player_ids_v(old(app).players@), spec_click_volume(col, bar), now)),
{
    if bar.width == 0 {
        return no_effects();
    }
    let v = click_volume(col, bar);
    let ids = app.player_ids();
    assert(ids_v(ids) =~= player_ids_v(app.players@));
    let ghost a0 = *app;
    let ghost st0 = mute_state_of(*app);
    let ghost active = crate::effects::opt_v(app.active_player);
    let mut out = no_effects();
    let mut i: usize = 0;
    while i < ids.len()
        invariant
            i <= ids@.len(),
            ({
                let st = set_volumes(st0, active, ids_v(ids).take(i as int), v, now);
                &&& app.player_volumes@ == st.0
                &&& app.muted_volumes@ == st.1
                &&& app.volume_pending@ == st.2
                &&& app.now_playing == st.3
                &&& effects_v(out) == st.4
            }),
            active == crate::effects::opt_v(app.active_player),
            volume_frame(a0, *app),
        decreases ids@.len() - i,
    {
        let ghost pre = ids_v(ids).take(i as int);
        let ghost next = ids_v(ids).take(i + 1);
        assert(next.drop_last() =~= pre);
        assert(next.last() == ids@[i as int]@);
        let e = set_one_volume(&mut app.player_volumes, &mut app.volume_pending, &mut app.now_playing, &app.active_player, ids[i].as_str(), v, now);
        let ghost before = out;
        out.push(e);
        proof {
            lemma_effects_v_push(before, out, e);
        }
        i += 1;
    }
    assert(ids_v(ids).take(ids@.len() as int) =~= ids_v(ids));
    out
}

/// The request of the all-players power button: every player on when any is off, all off
/// otherwise.
pub open spec fn power_all_effects(app: App) -> Seq<EffectV> {
    seq![EffectV::PowerAll(player_ids_v(app.players@), !all_powered(app.players@))]
}

/// The request of the all-players power button (see `power_all_effects`).
pub fn toggle_all_players_power(app: &App) -> (r: Effects)
    ensures
        effects_v(r) == power_all_effects(*app),
{
    let mut all_on = app.players.len() > 0;
    let mut i: usize = 0;
    while i < app.players.len()
        invariant
            i <= app.players@.len(),
            all_on == (app.players@.len() > 0 && forall|k: int| 0 <= k < i ==> app.players@[k].power > 0),
        decreases app.players@.len() - i,
    {
        if app.players[i].power == 0 {
            all_on = false;
        }
        i += 1;
    }
    let ids = app.player_ids();
    assert(ids_v(ids) =~= player_ids_v(app.players@));
    one_effect(Effect::PowerAll(ids, !all_on))
}

/// The volume known for a player (0 when none is known).
pub open spec fn known_volume(vols: Map<Seq<char>, u8>, p: Player) -> nat {
    if vols.contains_key(p.playerid@) { vols[p.playerid@] as nat } else { 0 }
}

/// The sum of the known volumes of the players.
pub open spec fn volume_sum(players: Seq<Player>, vols: Map<Seq<char>, u8>) -> nat
    decreases players.len(),
{
    if players.len() == 0 {
        0
    } else {
        volume_sum(players.drop_last(), vols) + known_volume(vols, players.last())
    }
}

proof fn lemma_volume_sum_bound(players: Seq<Player>, vols: Map<Seq<char>, u8>)
    ensures
        volume_sum(players, vols) <= 255 * players.len(),
    decreases players.len(),
{
    if players.len() > 0 {
        lemma_volume_sum_bound(players.drop_last(), vols);
    }
}

/// The volume of all players together as the Players list shows it: the average of the
/// players' known volumes (rounded down), 0 without players.
pub open spec fn spec_average_volume(players: Seq<Player>, vols: Map<Seq<char>, u8>) -> int {
    if players.len() == 0 { 0 } else { volume_sum(players, vols) as int / players.len() as int }
}

/// The average volume of all players (see `spec_average_volume`).
pub fn average_volume(app: &App) -> (r: u8)
    ensures
        r as int == spec_average_volume(app.players@, app.player_volumes@),
{
    let n = app.players.len();
    if n == 0 {
        return 0;
    }
    let mut sum: u128 = 0;
    let mut i: usize = 0;
    while i < n
        invariant
            n == app.players@.len(),
            i <= n,
            sum as nat == volume_sum(app.players@.subrange(0, i as int), app.player_volumes@),
        decreases n - i,
    {
        proof {
            lemma_volume_sum_bound(app.players@.subrange(0, i as int), app.player_volumes@);
            assert(app.players@.subrange(0, i as int + 1).drop_last() =~= app.players@.subrange(0, i as int));
        }
        let v: u8 = match app.player_volumes.get(app.players[i].playerid.as_str()) {
            Some(v) => *v,
            None => 0,
        };
        assert(255 * i <= 255 * usize::MAX) by (nonlinear_arith)
            requires
                i <= usize::MAX;
        sum = sum + v as u128;
        i = i + 1;
    }
    proof {
        assert(app.players@.subrange(0, n as int) =~= app.players@);
        lemma_volume_sum_bound(app.players@, app.player_volumes@);
        assert(sum / (n as u128) <= 255) by (nonlinear_arith)
            requires
                sum <= 255 * n,
                n > 0;
    }
    (sum / (n as u128)) as u8
}

} // verus!
