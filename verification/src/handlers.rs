//! State transitions for keys, dialogs and menu actions.
//!
//! Each transition changes the state and returns the requests the client must carry out.
use vstd::prelude::*;
use vstd::string::*;
use crate::api::{Track, FolderItemType, clone_opt_string, extract_id, spec_extract_id, opt_string_view};
use crate::app::{App, MainView, LibraryView, SearchResultItem};
use crate::effects::{Call, Effect, EffectV, Effects, effects_v, effect_v, lemma_effects_v_one, lemma_effects_v_empty, lemma_effects_v_push, no_effects, one_effect};
use crate::events::{KeyCode, KeyInput};
use crate::text::{concat3, to_owned_string, u64_to_string, spec_decimal};

verus! {

/// The option reached from `s` by stepping `dir` (wrapping over five options) up to `fuel`
/// times until an enabled one is found; `orig` when none is.
pub open spec fn spec_next_enabled(s: int, dir: int, enabled: Seq<bool>, fuel: nat, orig: int) -> int
    decreases fuel,
{
    if fuel == 0 {
        orig
    } else {
        let t = (s + dir) % 5;
        if enabled[t] {
            t
        } else {
            spec_next_enabled(t, dir, enabled, (fuel - 1) as nat, orig)
        }
    }
}

/// Where stepping from option `sel` starts: the option as a signed byte.
pub open spec fn delete_option_start(sel: u8) -> int {
    if sel < 128 { sel as int } else { sel - 256 }
}

/// The next enabled option of the five-option delete dialog, moving by `dir` from `sel`
/// with wrap-around; `sel` itself when no option is enabled.
pub fn next_enabled_delete_option(sel: u8, dir: i8, enabled: &[bool; 5]) -> (r: u8)
    requires
        dir == 1 || dir == -1,
        !(sel == 127 && dir == 1),
    ensures
        r as int == spec_next_enabled(delete_option_start(sel), dir as int, enabled@, 5, sel as int),
        r < 5 || r == sel,
{
    let mut s: i16 = if sel < 128 { sel as i16 } else { sel as i16 - 256 };
    let mut k: u8 = 0;
    while k < 5
        invariant
            -128 <= s < 128,
            k > 0 ==> 0 <= s < 5,
            k <= 5,
            dir == 1 || dir == -1,
            !(s == 127 && dir == 1),
            spec_next_enabled(s as int, dir as int, enabled@, (5 - k) as nat, sel as int)
                == spec_next_enabled(delete_option_start(sel), dir as int, enabled@, 5, sel as int),
        decreases 5 - k,
    {
        let t: i16 = s + dir as i16;
        let m: i16 = t % 5;
        let t2: i16 = if m < 0 { m + 5 } else { m };
        assert(t2 as int == (s + dir) % 5);
        if enabled[t2 as usize] {
            return t2 as u8;
        }
        s = t2;
        k += 1;
    }
    sel
}

/// The five options of the delete dialog that apply to queue index `idx` of a queue of
/// `len` tracks: this track, those before, those after, the whole queue, cancel.
pub open spec fn spec_delete_enabled(idx: int, len: int) -> Seq<bool> {
    seq![true, idx > 0, idx + 1 < len, true, true]
}

/// Status text after removing a track.
pub open spec fn removed_track_msg(name: Seq<char>) -> Seq<char> {
    "Removed \""@ + name + "\" from queue"@
}

/// Status text after removing the tracks before an index.
pub open spec fn removed_before_msg(n: nat) -> Seq<char> {
    "Removed "@ + spec_decimal(n) + " songs before this"@
}

/// Status text after removing the tracks after an index.
pub open spec fn removed_after_msg(n: nat) -> Seq<char> {
    "Removed "@ + spec_decimal(n) + " songs after this"@
}

/// What choice `choice` of the delete dialog does to queue `q` with selection `sel` for
/// player `pid`: the new queue, the new selection and the request with its status text;
/// `None` when the choice does not apply (nothing changes then).
pub open spec fn delete_choice_outcome(q: Seq<Track>, sel: usize, pid: Seq<char>, idx: int, choice: int, queue_len: int) -> Option<(Seq<Track>, usize, EffectV)> {
    if choice == 0 {
        if idx < q.len() {
            let nq = q.remove(idx);
            let ns = if nq.len() > 0 && sel >= nq.len() { (nq.len() - 1) as usize } else { sel };
            Some((nq, ns, EffectV::Report(Call::DeleteQueueItem(pid, idx as usize), removed_track_msg(q[idx].title@))))
        } else {
            None
        }
    } else if choice == 1 {
        if idx > 0 {
            Some((q.subrange(idx, q.len() as int), 0usize, EffectV::Report(Call::DeleteQueueItemsBefore(pid, idx as usize), removed_before_msg(idx as nat))))
        } else {
            None
        }
    } else if choice == 2 {
        let after = if queue_len > idx + 1 { queue_len - (idx + 1) } else { 0 };
        if after > 0 {
            let nq = if idx + 1 < q.len() { q.subrange(0, idx + 1) } else { q };
            let ns = if sel > idx { idx as usize } else { sel };
            Some((nq, ns, EffectV::Report(Call::DeleteQueueItemsAfter(pid, idx as usize, queue_len as usize), removed_after_msg(after as nat))))
        } else {
            None
        }
    } else if choice == 3 {
        Some((Seq::empty(), 0usize, EffectV::Report(Call::ClearQueue(pid), "Queue cleared"@)))
    } else {
        None
    }
}

/// The whole effect of a delete-dialog choice on the state: nothing without an active
/// player or when the choice does not apply; otherwise only the queue and the selection
/// change, and the one request is issued.
pub open spec fn delete_choice_post(old: App, new: App, effects: Seq<EffectV>, idx: int, choice: int, queue_len: int) -> bool {
    match old.active_player {
        None => new == old && effects.len() == 0,
        Some(p) => match delete_choice_outcome(old.queue@, old.main_selected, p@, idx, choice, queue_len) {
            None => new == old && effects.len() == 0,
            Some((nq, ns, e)) => {
                &&& new == (App { queue: new.queue, main_selected: ns, ..old })
                &&& new.queue@ == nq
                &&& effects == seq![e]
            },
        },
    }
}

/// Applies a delete-dialog choice to the queue and the selection.
fn apply_delete_choice(queue: &mut Vec<Track>, sel: &mut usize, pid: String, idx: usize, choice: u8, queue_len: usize) -> (r: Option<Effect<String, Vec<(String, String)>, Vec<String>>>)
    requires
        choice == 1 ==> idx <= old(queue)@.len(),
    ensures
        match delete_choice_outcome(old(queue)@, *old(sel), pid@, idx as int, choice as int, queue_len as int) {
            None => r is None && *final(queue) == *old(queue) && *final(sel) == *old(sel),
            Some((nq, ns, e)) => r matches Some(x) && effect_v(x) == e && final(queue)@ == nq && *final(sel) == ns,
        },
{
    if choice == 0 {
        if idx < queue.len() {
            let name = queue[idx].title.clone();
            let msg = concat3("Removed \"", name.as_str(), "\" from queue");
            queue.remove(idx);
            if queue.len() > 0 && *sel >= queue.len() {
                *sel = queue.len() - 1;
            }
            return Some(Effect::Report(Call::DeleteQueueItem(pid, idx), msg));
        }
    } else if choice == 1 {
        if idx > 0 {
            let mut msg = to_owned_string("Removed ");
            msg.append(u64_to_string(idx as u64).as_str());
            msg.append(" songs before this");
            let ghost q = queue@;
            let rest = queue.split_off(idx);
            *queue = rest;
            assert(queue@ =~= q.subrange(idx as int, q.len() as int));
            *sel = 0;
            return Some(Effect::Report(Call::DeleteQueueItemsBefore(pid, idx), msg));
        }
    } else if choice == 2 {
        let after = if queue_len > idx { queue_len - idx - 1 } else { 0 };
        if after > 0 {
            let mut msg = to_owned_string("Removed ");
            msg.append(u64_to_string(after as u64).as_str());
            msg.append(" songs after this");
            let ghost q = queue@;
            queue.truncate(idx + 1);
            assert(queue@ =~= (if idx + 1 < q.len() { q.subrange(0, idx + 1) } else { q }));
            if *sel > idx {
                *sel = idx;
            }
            return Some(Effect::Report(Call::DeleteQueueItemsAfter(pid, idx, queue_len), msg));
        }
    } else if choice == 3 {
        queue.clear();
        *sel = 0;
        return Some(Effect::Report(Call::ClearQueue(pid), to_owned_string("Queue cleared")));
    }
    None
}

/// Carries out queue-removal choice `choice` for index `idx` (0 = this track, 1 = those
/// before, 2 = those after, 3 = all): the local queue changes at once and the server is
/// asked to do the same.
pub fn execute_delete_queue_choice(app: &mut App, idx: usize, choice: u8, queue_len: usize) -> (r: Effects)
    requires
        choice == 1 ==> idx <= old(app).queue@.len(),
    ensures
        delete_choice_post(*old(app), *final(app), effects_v(r), idx as int, choice as int, queue_len as int),
{
    let mut effects: Effects = Vec::new();
    proof { lemma_effects_v_empty(effects); }
    let pid = match app.active_pid() {
        Some(p) => p,
        None => {
            return effects;
        },
    };
    let e = apply_delete_choice(&mut app.queue, &mut app.main_selected, pid, idx, choice, queue_len);
    if let Some(e) = e {
        effects.push(e);
        proof { lemma_effects_v_one(effects); }
    }
    effects
}

/// The key moves the selection up in a list or dialog (Up or `k`).
pub open spec fn is_up_key(k: KeyCode) -> bool {
    k == KeyCode::Up || k == KeyCode::Char('k')
}

/// The key moves the selection down in a list or dialog (Down or `j`).
pub open spec fn is_down_key(k: KeyCode) -> bool {
    k == KeyCode::Down || k == KeyCode::Char('j')
}

/// The delete dialog's own state after a key, as (open for index, selected option,
/// choice to carry out): Up/`k` and Down/`j`/Tab move to the previous or next enabled
/// option; `y`/`d` remove the track at once; Enter carries out the selected choice (the
/// fifth, Cancel, does nothing); Esc/`q` close the dialog. Every choice closes it with the
/// first option selected again.
pub open spec fn delete_dialog_step(idx: usize, len: int, sel: u8, key: KeyCode) -> (Option<usize>, u8, Option<u8>) {
    let en = spec_delete_enabled(idx as int, len);
    if is_up_key(key) {
        (Some(idx), spec_next_enabled(delete_option_start(sel), -1, en, 5, sel as int) as u8, None)
    } else if is_down_key(key) || key == KeyCode::Tab {
        (Some(idx), spec_next_enabled(delete_option_start(sel), 1, en, 5, sel as int) as u8, None)
    } else if key == KeyCode::Char('y') || key == KeyCode::Char('d') {
        (None, 0, Some(0u8))
    } else if key == KeyCode::Enter {
        (None, 0, if sel < 4 { Some(sel) } else { None })
    } else if key == KeyCode::Esc || key == KeyCode::Char('q') {
        (None, 0, None)
    } else {
        (Some(idx), sel, None)
    }
}

/// The state and requests after a key while the delete dialog is open (nothing happens
/// when it is not).
pub open spec fn delete_dialog_key_post(old: App, new: App, effects: Seq<EffectV>, key: KeyCode) -> bool {
    match old.confirm_delete_queue_item {
        None => new == old && effects.len() == 0,
        Some(idx) => {
            let len = old.queue@.len() as int;
            let step = delete_dialog_step(idx, len, old.delete_queue_selected_button, key);
            let mid = App { confirm_delete_queue_item: step.0, delete_queue_selected_button: step.1, ..old };
            match step.2 {
                None => new == mid && effects.len() == 0,
                Some(choice) => delete_choice_post(mid, new, effects, idx as int, choice as int, len),
            }
        },
    }
}

/// The dialog step for the given key.
fn delete_dialog_step_exec(idx: usize, len: usize, sel: u8, key: KeyCode) -> (r: (Option<usize>, u8, Option<u8>))
    requires
        (is_down_key(key) || key == KeyCode::Tab) ==> sel != 127,
    ensures
        r == delete_dialog_step(idx, len as int, sel, key),
{
    let enabled: [bool; 5] = [true, idx > 0, idx < len && idx + 1 < len, true, true];
    assert(enabled@ =~= spec_delete_enabled(idx as int, len as int));
    if key == KeyCode::Up || key == KeyCode::Char('k') {
        (Some(idx), next_enabled_delete_option(sel, -1, &enabled), None)
    } else if key == KeyCode::Down || key == KeyCode::Char('j') || key == KeyCode::Tab {
        (Some(idx), next_enabled_delete_option(sel, 1, &enabled), None)
    } else if key == KeyCode::Char('y') || key == KeyCode::Char('d') {
        (None, 0, Some(0))
    } else if key == KeyCode::Enter {
        (None, 0, if sel < 4 { Some(sel) } else { None })
    } else if key == KeyCode::Esc || key == KeyCode::Char('q') {
        (None, 0, None)
    } else {
        (Some(idx), sel, None)
    }
}

/// A key while the delete-from-queue dialog is open.
#[verifier::rlimit(40)]
pub fn handle_confirm_delete_queue_item_key(app: &mut App, key: KeyInput) -> (r: Effects)
    requires
        old(app).confirm_delete_queue_item is Some && (is_down_key(key.code) || key.code == KeyCode::Tab)
            ==> old(app).delete_queue_selected_button != 127,
        key.code == KeyCode::Enter && old(app).delete_queue_selected_button == 1
            ==> (old(app).confirm_delete_queue_item matches Some(idx) ==> idx <= old(app).queue@.len()),
    ensures
        delete_dialog_key_post(*old(app), *final(app), effects_v(r), key.code),
{
    let idx = match app.confirm_delete_queue_item {
        Some(i) => i,
        None => {
            return no_effects();
        },
    };
    let queue_len = app.queue.len();
    let step = delete_dialog_step_exec(idx, queue_len, app.delete_queue_selected_button, key.code);
    app.confirm_delete_queue_item = step.0;
    app.delete_queue_selected_button = step.1;
    match step.2 {
        Some(choice) => execute_delete_queue_choice(app, idx, choice, queue_len),
        None => no_effects(),
    }
}

/// The clear-queue dialog's state after a key, as (open, selected button, confirmed):
/// Tab/Left/Right switch between OK and Cancel; `y` confirms; Enter confirms when OK is
/// selected; Esc cancels. Closing selects OK again.
pub open spec fn clear_queue_step(open: bool, sel: u8, key: KeyCode) -> (bool, u8, bool) {
    if key == KeyCode::Tab || key == KeyCode::Right || key == KeyCode::Left {
        (open, (1 - sel) as u8, false)
    } else if key == KeyCode::Char('y') {
        (false, 0, true)
    } else if key == KeyCode::Enter {
        (false, 0, sel == 0)
    } else if key == KeyCode::Esc {
        (false, 0, false)
    } else {
        (open, sel, false)
    }
}

/// The state and requests after a key in the clear-queue dialog: confirming asks the server
/// to clear the active player's queue.
pub open spec fn clear_queue_key_post(old: App, new: App, effects: Seq<EffectV>, key: KeyCode) -> bool {
    let step = clear_queue_step(old.confirm_clear_queue, old.clear_queue_selected_button, key);
    &&& new == (App { confirm_clear_queue: step.0, clear_queue_selected_button: step.1, ..old })
    &&& effects == clear_queue_request_v(old.active_player, step.2)
}

/// The request to clear the active player's queue, when confirmed.
pub open spec fn clear_queue_request_v(active: Option<String>, confirmed: bool) -> Seq<EffectV> {
    match active {
        Some(p) => if confirmed { seq![EffectV::Report(Call::ClearQueue(p@), "Queue cleared"@)] } else { Seq::empty() },
        None => Seq::empty(),
    }
}

pub(crate) fn clear_queue_request(active: &Option<String>, confirmed: bool) -> (r: Effects)
    ensures
        effects_v(r) == clear_queue_request_v(*active, confirmed),
{
    match active {
        Some(pid) => {
            if confirmed {
                one_effect(Effect::Report(Call::ClearQueue(pid.clone()), to_owned_string("Queue cleared")))
            } else {
                no_effects()
            }
        },
        None => no_effects(),
    }
}

/// A key while the clear-queue confirmation is open.
pub fn handle_confirm_clear_queue_key(app: &mut App, key: KeyInput) -> (r: Effects)
    requires
        key.code == KeyCode::Tab || key.code == KeyCode::Right || key.code == KeyCode::Left
            ==> old(app).clear_queue_selected_button <= 1,
    ensures
        clear_queue_key_post(*old(app), *final(app), effects_v(r), key.code),
{
    let code = key.code;
    let sel = app.clear_queue_selected_button;
    let step: (bool, u8, bool) = if code == KeyCode::Tab || code == KeyCode::Right || code == KeyCode::Left {
        (app.confirm_clear_queue, 1 - sel, false)
    } else if code == KeyCode::Char('y') {
        (false, 0, true)
    } else if code == KeyCode::Enter {
        (false, 0, sel == 0)
    } else if code == KeyCode::Esc {
        (false, 0, false)
    } else {
        (app.confirm_clear_queue, sel, false)
    };
    let effects = clear_queue_request(&app.active_player, step.2);
    app.confirm_clear_queue = step.0;
    app.clear_queue_selected_button = step.1;
    effects
}

/// The quit dialog's state after a key, as (open, selected button, quitting):
/// Tab/Left/Right switch between OK and Cancel; `y` quits; Enter quits when OK is selected;
/// Esc/`n` cancel. Closing by Enter, Esc or `n` selects Cancel again.
pub open spec fn quit_step(open: bool, sel: u8, quit: bool, key: KeyCode) -> (bool, u8, bool) {
    if key == KeyCode::Tab || key == KeyCode::Right || key == KeyCode::Left {
        (open, (1 - sel) as u8, quit)
    } else if key == KeyCode::Char('y') {
        (false, sel, true)
    } else if key == KeyCode::Enter {
        (false, 1, quit || sel == 0)
    } else if key == KeyCode::Esc || key == KeyCode::Char('n') {
        (false, 1, quit)
    } else {
        (open, sel, quit)
    }
}

/// A key while the quit confirmation is open.
pub fn handle_confirm_quit_key(app: &mut App, key: KeyInput)
    requires
        key.code == KeyCode::Tab || key.code == KeyCode::Right || key.code == KeyCode::Left
            ==> old(app).quit_selected_button <= 1,
    ensures
        ({
            let step = quit_step(old(app).confirm_quit, old(app).quit_selected_button, old(app).should_quit, key.code);
            *final(app) == (App { confirm_quit: step.0, quit_selected_button: step.1, should_quit: step.2, ..*old(app) })
        }),
{
    let code = key.code;
    let sel = app.quit_selected_button;
    let step: (bool, u8, bool) = if code == KeyCode::Tab || code == KeyCode::Right || code == KeyCode::Left {
        (app.confirm_quit, 1 - sel, app.should_quit)
    } else if code == KeyCode::Char('y') {
        (false, sel, true)
    } else if code == KeyCode::Enter {
        (false, 1, app.should_quit || sel == 0)
    } else if code == KeyCode::Esc || code == KeyCode::Char('n') {
        (false, 1, app.should_quit)
    } else {
        (app.confirm_quit, sel, app.should_quit)
    };
    app.confirm_quit = step.0;
    app.quit_selected_button = step.1;
    app.should_quit = step.2;
}

} // verus!
