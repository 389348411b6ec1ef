//! Editing a one-line text field with a character cursor, and the query boxes of the
//! search views.
use vstd::prelude::*;
use vstd::string::*;
use crate::actions::{cycle_scope_post, cycle_search_scope};
use crate::app::{App, MainView};
use crate::effects::{Effect, EffectV, Effects, effects_v, no_effects, one_effect, opt_v};
use crate::events::{KeyCode, KeyInput};
use crate::select::{pid_or_empty, pid_or_empty_exec};
use crate::text::string_push;
use crate::api::clone_opt_string;

verus! {

/// `s` with `c` inserted before character `cursor` (at the end when the cursor is past it).
pub open spec fn insert_at(s: Seq<char>, cursor: nat, c: char) -> Seq<char> {
    let k = if cursor <= s.len() { cursor as int } else { s.len() as int };
    s.take(k) + seq![c] + s.skip(k)
}

/// Inserts `c` at the cursor and moves the cursor past it.
pub fn input_insert(s: &mut String, cursor: &mut usize, c: char)
    requires
        *old(cursor) < usize::MAX,
    ensures
        final(s)@ == insert_at(old(s)@, *old(cursor) as nat, c),
        *final(cursor) == *old(cursor) + 1,
{
    let n = s.unicode_len();
    let k = if *cursor <= n { *cursor } else { n };
    let mut t = String::from_str(s.as_str().substring_char(0, k));
    string_push(&mut t, c);
    t.append(s.as_str().substring_char(k, n));
    assert(t@ =~= insert_at(s@, *cursor as nat, c));
    *s = t;
    *cursor = *cursor + 1;
}

/// Deletes the character before the cursor and moves the cursor onto its place; nothing at
/// the start.
pub fn input_backspace(s: &mut String, cursor: &mut usize)
    requires
        *old(cursor) <= old(s)@.len(),
    ensures
        *old(cursor) > 0 ==> final(s)@ == old(s)@.remove(*old(cursor) - 1) && *final(cursor) == *old(cursor) - 1,
        *old(cursor) == 0 ==> *final(s) == *old(s) && *final(cursor) == 0,
{
    if *cursor > 0 {
        *cursor = *cursor - 1;
        remove_char_at(s, *cursor);
    }
}

/// Deletes the character under the cursor; nothing at the end.
pub fn input_delete(s: &mut String, cursor: usize)
    ensures
        cursor < old(s)@.len() ==> final(s)@ == old(s)@.remove(cursor as int),
        cursor >= old(s)@.len() ==> *final(s) == *old(s),
{
    if cursor < s.unicode_len() {
        remove_char_at(s, cursor);
    }
}

fn remove_char_at(s: &mut String, i: usize)
    requires
        i < old(s)@.len(),
    ensures
        final(s)@ == old(s)@.remove(i as int),
{
    let n = s.unicode_len();
    let mut t = String::from_str(s.as_str().substring_char(0, i));
    t.append(s.as_str().substring_char(i + 1, n));
    assert(t@ =~= s@.remove(i as int));
    *s = t;
}

/// The field and cursor after an editing key, or `None` when the key does not edit:
/// a character is inserted; Backspace and Delete remove the character before or under the
/// cursor; Left and Right move the cursor within the text; Home and End jump to its ends.
pub open spec fn text_edit(key: KeyCode, s: Seq<char>, cursor: nat) -> Option<(Seq<char>, nat)> {
    match key {
        KeyCode::Char(c) => Some((insert_at(s, cursor, c), cursor + 1)),
        KeyCode::Backspace => if cursor > 0 { Some((s.remove(cursor - 1), (cursor - 1) as nat)) } else { Some((s, cursor)) },
        KeyCode::Delete => if cursor < s.len() { Some((s.remove(cursor as int), cursor)) } else { Some((s, cursor)) },
        KeyCode::Left => Some((s, if cursor > 0 { (cursor - 1) as nat } else { cursor })),
        KeyCode::Right => Some((s, if cursor < s.len() { cursor + 1 } else { cursor })),
        KeyCode::Home => Some((s, 0)),
        KeyCode::End => Some((s, s.len())),
        _ => None,
    }
}

/// The cursor may take an editing key: a character can be inserted after it, and Backspace
/// does not start past the end of the text.
pub open spec fn edit_key_ok(key: KeyCode, s: Seq<char>, cursor: nat) -> bool {
    &&& key is Char ==> cursor < usize::MAX
    &&& key == KeyCode::Backspace && cursor > 0 ==> cursor <= s.len()
}

/// Applies an editing key to a text field (see `text_edit`); false when the key does not
/// edit, and then nothing changes.
pub fn handle_text_edit_key(key: KeyCode, query: &mut String, cursor: &mut usize) -> (r: bool)
    requires
        edit_key_ok(key, old(query)@, *old(cursor) as nat),
    ensures
        match text_edit(key, old(query)@, *old(cursor) as nat) {
            Some((s, c)) => r && final(query)@ == s && *final(cursor) == c,
            None => !r && *final(query) == *old(query) && *final(cursor) == *old(cursor),
        },
{
    match key {
        KeyCode::Char(c) => input_insert(query, cursor, c),
        KeyCode::Backspace => input_backspace(query, cursor),
        KeyCode::Delete => input_delete(query, *cursor),
        KeyCode::Left => {
            if *cursor > 0 {
                *cursor = *cursor - 1;
            }
        },
        KeyCode::Right => {
            if *cursor < query.unicode_len() {
                *cursor = *cursor + 1;
            }
        },
        KeyCode::Home => {
            *cursor = 0;
        },
        KeyCode::End => {
            *cursor = query.unicode_len();
        },
        _ => {
            return false;
        },
    }
    true
}

/// The search query box after a key that does not edit: Enter with a query runs the search
/// (results cleared, the box stops taking keys, cursor reset); Tab and Shift-Tab switch the
/// scope; Esc and Down leave the box.
pub open spec fn search_command_post(old: App, new: App, effects: Seq<EffectV>, key: KeyCode) -> bool {
    if key == KeyCode::Enter {
        if old.search_query@.len() > 0 {
            &&& new == (App {
                search_results: new.search_results,
                main_selected: 0,
                search_input_active: false,
                search_cursor_pos: 0,
                ..old
            })
            &&& new.search_results@.len() == 0
            &&& effects == seq![EffectV::Search(old.search_query@, old.search_scope, pid_or_empty(old.active_player))]
        } else {
            new == old && effects.len() == 0
        }
    } else if key == KeyCode::Tab {
        cycle_scope_post(old, new, effects, true)
    } else if key == KeyCode::BackTab {
        cycle_scope_post(old, new, effects, false)
    } else if key == KeyCode::Esc || key == KeyCode::Down {
        new == (App { search_input_active: false, ..old }) && effects.len() == 0
    } else {
        new == old && effects.len() == 0
    }
}

/// The search query box after a key: editing keys edit the query (see `text_edit`), the
/// others act as `search_command_post` says.
pub open spec fn search_input_post(old: App, new: App, effects: Seq<EffectV>, key: KeyCode) -> bool {
    match text_edit(key, old.search_query@, old.search_cursor_pos as nat) {
        Some((s, c)) => {
            &&& new == (App { search_query: new.search_query, search_cursor_pos: c as usize, ..old })
            &&& new.search_query@ == s
            &&& effects.len() == 0
        },
        None => search_command_post(old, new, effects, key),
    }
}

fn edit_search_query(app: &mut App, key: KeyCode) -> (r: bool)
    requires
        edit_key_ok(key, old(app).search_query@, old(app).search_cursor_pos as nat),
    ensures
        match text_edit(key, old(app).search_query@, old(app).search_cursor_pos as nat) {
            Some((s, c)) => r && *final(app) == (App { search_query: final(app).search_query, search_cursor_pos: c as usize, ..*old(app) })
                && final(app).search_query@ == s,
            None => !r && *final(app) == *old(app),
        },
{
    handle_text_edit_key(key, &mut app.search_query, &mut app.search_cursor_pos)
}

fn run_search(app: &mut App) -> (r: Effects)
    requires
        old(app).search_query@.len() > 0,
    ensures
        *final(app) == (App {
            search_results: final(app).search_results,
            main_selected: 0,
            search_input_active: false,
            search_cursor_pos: 0,
            ..*old(app)
        }),
        final(app).search_results@.len() == 0,
        effects_v(r) == seq![EffectV::Search(old(app).search_query@, old(app).search_scope, pid_or_empty(old(app).active_player))],
{
    app.search_results = Vec::new();
    app.main_selected = 0;
    let pid = pid_or_empty_exec(&app.active_player);
    let e = Effect::Search(app.search_query.clone(), app.search_scope, pid);
    app.search_input_active = false;
    app.search_cursor_pos = 0;
    one_effect(e)
}

fn leave_search_input(app: &mut App)
    ensures
        *final(app) == (App { search_input_active: false, ..*old(app) }),
{
    app.search_input_active = false;
}

fn search_command(app: &mut App, code: KeyCode) -> (r: Effects)
    ensures
        search_command_post(*old(app), *final(app), effects_v(r), code),
{
    if code == KeyCode::Enter {
        if app.search_query.unicode_len() > 0 {
            run_search(app)
        } else {
            no_effects()
        }
    } else if code == KeyCode::Tab {
        cycle_search_scope(app, true)
    } else if code == KeyCode::BackTab {
        cycle_search_scope(app, false)
    } else if code == KeyCode::Esc || code == KeyCode::Down {
        leave_search_input(app);
        no_effects()
    } else {
        no_effects()
    }
}

/// A key while the search query box takes keys.
pub fn handle_search_input_key(app: &mut App, key: KeyInput) -> (r: Effects)
    requires
        edit_key_ok(key.code, old(app).search_query@, old(app).search_cursor_pos as nat),
    ensures
        search_input_post(*old(app), *final(app), effects_v(r), key.code),
{
    if edit_search_query(app, key.code) {
        return no_effects();
    }
    search_command(app, key.code)
}

/// The in-app query box after a key (only in an in-app search view): editing keys edit the
/// query; Enter with a query runs the app's search (results cleared, loading, the box stops
/// taking keys, cursor reset); Esc and Down leave the box.
pub open spec fn app_search_input_post(old: App, new: App, effects: Seq<EffectV>, key: KeyCode) -> bool {
    match old.main_view {
        MainView::AppSearch { cmd, item_id } => match text_edit(key, old.app_search_query@, old.app_search_cursor_pos as nat) {
            Some((s, c)) => {
                &&& new == (App { app_search_query: new.app_search_query, app_search_cursor_pos: c as usize, ..old })
                &&& new.app_search_query@ == s
                &&& effects.len() == 0
            },
            None => if key == KeyCode::Enter {
                if old.app_search_query@.len() > 0 {
                    &&& new == (App {
                        app_search_results: new.app_search_results,
                        main_selected: 0,
                        is_loading: true,
                        app_search_input_active: false,
                        app_search_cursor_pos: 0,
                        ..old
                    })
                    &&& new.app_search_results@.len() == 0
                    &&& effects == seq![EffectV::AppSearch(old.app_search_query@, cmd@, opt_v(item_id), pid_or_empty(old.active_player))]
                } else {
                    new == old && effects.len() == 0
                }
            } else if key == KeyCode::Esc || key == KeyCode::Down {
                new == (App { app_search_input_active: false, ..old }) && effects.len() == 0
            } else {
                new == old && effects.len() == 0
            },
        },
        _ => new == old && effects.len() == 0,
    }
}

fn edit_app_search_query(app: &mut App, key: KeyCode) -> (r: bool)
    requires
        edit_key_ok(key, old(app).app_search_query@, old(app).app_search_cursor_pos as nat),
    ensures
        match text_edit(key, old(app).app_search_query@, old(app).app_search_cursor_pos as nat) {
            Some((s, c)) => r && *final(app) == (App { app_search_query: final(app).app_search_query, app_search_cursor_pos: c as usize, ..*old(app) })
                && final(app).app_search_query@ == s,
            None => !r && *final(app) == *old(app),
        },
{
    handle_text_edit_key(key, &mut app.app_search_query, &mut app.app_search_cursor_pos)
}

fn run_app_search(app: &mut App, cmd: String, item_id: Option<String>) -> (r: Effects)
    requires
        old(app).app_search_query@.len() > 0,
    ensures
        *final(app) == (App {
            app_search_results: final(app).app_search_results,
            main_selected: 0,
            is_loading: true,
            app_search_input_active: false,
            app_search_cursor_pos: 0,
            ..*old(app)
        }),
        final(app).app_search_results@.len() == 0,
        effects_v(r) == seq![EffectV::AppSearch(old(app).app_search_query@, cmd@, opt_v(item_id), pid_or_empty(old(app).active_player))],
{
    app.app_search_results = Vec::new();
    app.main_selected = 0;
    app.is_loading = true;
    let pid = pid_or_empty_exec(&app.active_player);
    let e = Effect::AppSearch(app.app_search_query.clone(), cmd, item_id, pid);
    app.app_search_input_active = false;
    app.app_search_cursor_pos = 0;
    one_effect(e)
}

fn leave_app_search_input(app: &mut App)
    ensures
        *final(app) == (App { app_search_input_active: false, ..*old(app) }),
{
    app.app_search_input_active = false;
}

/// A key while the in-app query box takes keys.
pub fn handle_app_search_input_key(app: &mut App, key: KeyInput) -> (r: Effects)
    requires
        edit_key_ok(key.code, old(app).app_search_query@, old(app).app_search_cursor_pos as nat),
    ensures
        app_search_input_post(*old(app), *final(app), effects_v(r), key.code),
{
    let (cmd, item_id) = match &app.main_view {
        MainView::AppSearch { cmd, item_id } => (cmd.clone(), clone_opt_string(item_id)),
        _ => {
            return no_effects();
        },
    };
    let code = key.code;
    if edit_app_search_query(app, code) {
        return no_effects();
    }
    if code == KeyCode::Enter {
        if app.app_search_query.unicode_len() > 0 {
            run_app_search(app, cmd, item_id)
        } else {
            no_effects()
        }
    } else if code == KeyCode::Esc || code == KeyCode::Down {
        leave_app_search_input(app);
        no_effects()
    } else {
        no_effects()
    }
}

} // verus!
