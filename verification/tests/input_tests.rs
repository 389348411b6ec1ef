use lyrtui::app::{App, MainView, SearchScope};
use lyrtui::config::Config;
use lyrtui::effects::{Call, Effect};
use lyrtui::events::{key_to_action, Action, KeyCode, KeyInput};
use lyrtui::geometry::{
    area_new, centered_rect_abs, is_double_click, list_index_at_row, map_control_button_to_action, point_in,
    search_scope_at_col, Area,
};
use lyrtui::keys::{handle_key, key_fits};
use lyrtui::config_dialog::open_config;
use lyrtui::mouse::{first_hit, handle_mouse_event, FullArtAreas, MouseInput, MouseKind, MouseLayout};
use lyrtui::panes::PaneAreas;
use lyrtui::session::scroll_offset;
use lyrtui::volume::click_volume;

fn area(x: u16, y: u16, width: u16, height: u16) -> Area {
    Area { x, y, width, height }
}

fn none() -> Area {
    area(0, 0, 0, 0)
}

fn layout() -> MouseLayout {
    MouseLayout {
        screen: area(0, 0, 100, 40),
        sync_dialog: none(),
        sync_rows: vec![],
        sync_confirm: none(),
        sync_cancel: none(),
        clear_dialog: none(),
        clear_confirm: none(),
        clear_cancel: none(),
        quit_dialog: area(30, 15, 40, 6),
        quit_confirm: area(35, 19, 8, 1),
        quit_cancel: area(55, 19, 8, 1),
        delete_dialog: none(),
        delete_options: [none(); 5],
        config_dialog: none(),
        config_fields: vec![],
        config_save: none(),
        config_cancel: none(),
        full_art: FullArtAreas {
            image: none(),
            exit: none(),
            controls: [none(); 8],
            progress: none(),
            queue: none(),
            volume_icon: None,
            player: none(),
        },
        panes: PaneAreas {
            sidebar: area(0, 0, 20, 30),
            main: area(20, 0, 80, 30),
            controls: [none(); 8],
            progress: none(),
            art: none(),
            volume_icon: None,
            title: area(0, 30, 100, 1),
            now_playing_title: none(),
            nav_title: area(0, 0, 20, 1),
        },
    }
}

fn key(code: KeyCode) -> KeyInput {
    KeyInput { code, control_only: false }
}

#[test]
fn cells_inside_areas() {
    let a = area(2, 3, 4, 2);
    assert!(point_in(2, 3, a));
    assert!(point_in(5, 4, a));
    assert!(!point_in(6, 4, a));
    assert!(!point_in(2, 5, a));
    assert!(!point_in(0, 0, area(0, 0, 0, 5)));
    assert!(point_in(65535, 65535, area(65535, 65535, 1, 1)));
}

#[test]
fn areas_stay_within_coordinates() {
    let a = area_new(65530, 10, 20, 5);
    assert_eq!(a.width, 5);
    assert_eq!(a.height, 5);
    let c = centered_rect_abs(44, 8, area(0, 0, 100, 40));
    assert_eq!(c, area(28, 16, 44, 8));
    let small = centered_rect_abs(44, 8, area(0, 0, 20, 4));
    assert_eq!(small, area(0, 0, 20, 4));
}

#[test]
fn list_rows_under_the_pointer() {
    assert_eq!(list_index_at_row(5, 1, 10, 0, 1), Some(4));
    assert_eq!(list_index_at_row(5, 1, 10, 3, 2), Some(5));
    assert_eq!(list_index_at_row(10, 1, 10, 0, 1), None);
    assert_eq!(list_index_at_row(0, 1, 10, 0, 1), None);
}

#[test]
fn first_area_under_the_pointer() {
    let rects = [area(0, 0, 3, 1), area(2, 0, 3, 1), area(10, 0, 3, 1)];
    assert_eq!(first_hit(&rects, 2, 0), Some(0));
    assert_eq!(first_hit(&rects, 4, 0), Some(1));
    assert_eq!(first_hit(&rects, 8, 0), None);
}

#[test]
fn scope_tabs_under_the_pointer() {
    assert_eq!(search_scope_at_col(5, 10, false), None);
    assert_eq!(search_scope_at_col(10, 10, false), Some(SearchScope::MyMusic));
    assert_eq!(search_scope_at_col(200, 10, false), Some(SearchScope::All));
}

#[test]
fn control_buttons() {
    assert_eq!(map_control_button_to_action(0), Action::Prev);
    assert_eq!(map_control_button_to_action(1), Action::PlayPause);
    assert_eq!(map_control_button_to_action(6), Action::VolumeDown);
    assert_eq!(map_control_button_to_action(7), Action::VolumeUp);
}

#[test]
fn double_clicks() {
    assert!(is_double_click(&Some((1000, 3)), 3, 1499));
    assert!(!is_double_click(&Some((1000, 3)), 3, 1500));
    assert!(!is_double_click(&Some((1000, 3)), 4, 1100));
    assert!(!is_double_click(&None, 3, 1100));
}

#[test]
fn volume_from_a_click_on_the_bar() {
    let bar = area(10, 0, 20, 1);
    assert_eq!(click_volume(5, bar), 0);
    assert_eq!(click_volume(10, bar), 0);
    assert_eq!(click_volume(20, bar), 50);
    assert_eq!(click_volume(30, bar), 100);
    assert_eq!(click_volume(40, bar), 100);
    assert_eq!(click_volume(11, area(10, 0, 8, 1)), 13);
}

#[test]
fn selection_stays_in_view() {
    assert_eq!(scroll_offset(5, 2, 10), 2);
    assert_eq!(scroll_offset(5, 20, 10), 11);
    assert_eq!(scroll_offset(5, 9, 10), 5);
    assert_eq!(scroll_offset(5, 20, 0), 5);
}

#[test]
fn keys_map_to_actions() {
    assert_eq!(key_to_action(key(KeyCode::Char('q'))), Action::Quit);
    assert_eq!(key_to_action(KeyInput { code: KeyCode::Char('c'), control_only: true }), Action::Quit);
    assert_eq!(key_to_action(key(KeyCode::Char('c'))), Action::OpenConfig);
    assert_eq!(key_to_action(key(KeyCode::Char('3'))), Action::NavToSidebar(2));
    assert_eq!(key_to_action(key(KeyCode::Esc)), Action::Back);
    assert_eq!(key_to_action(key(KeyCode::Tab)), Action::ToggleFocus);
    assert_eq!(key_to_action(key(KeyCode::Char('z'))), Action::Nothing);
}

#[test]
fn quit_key_quits() {
    let mut app = App::new(None);
    let mut cfg = Config::default();
    let mut esc = None;
    let (effects, flags) = handle_key(&mut app, key(KeyCode::Char('q')), &mut cfg, &mut esc, 0);
    assert!(flags.quit);
    assert!(effects.is_empty());
}

#[test]
fn a_second_esc_soon_after_asks_to_quit() {
    let mut app = App::new(None);
    let mut cfg = Config::default();
    let mut esc = None;
    let _ = handle_key(&mut app, key(KeyCode::Esc), &mut cfg, &mut esc, 1000);
    assert_eq!(esc, Some(1000));
    let (_, flags) = handle_key(&mut app, key(KeyCode::Esc), &mut cfg, &mut esc, 1200);
    assert!(!flags.quit);
    assert!(app.confirm_quit);
    assert_eq!(app.quit_selected_button, 1);
    assert_eq!(esc, None);
}

#[test]
fn a_late_second_esc_only_goes_back() {
    let mut app = App::new(None);
    let mut cfg = Config::default();
    let mut esc = None;
    let _ = handle_key(&mut app, key(KeyCode::Esc), &mut cfg, &mut esc, 1000);
    let _ = handle_key(&mut app, key(KeyCode::Esc), &mut cfg, &mut esc, 1600);
    assert!(!app.confirm_quit);
    assert_eq!(esc, Some(1600));
}

#[test]
fn settings_key_opens_the_dialog() {
    let mut app = App::new(None);
    let mut cfg = Config::default();
    cfg.host = "lms.local".to_string();
    let mut esc = None;
    let (_, flags) = handle_key(&mut app, key(KeyCode::Char('c')), &mut cfg, &mut esc, 0);
    assert!(!flags.save_config);
    let m = app.config_modal.as_ref().unwrap();
    assert_eq!(m.host, "lms.local");
    assert_eq!(m.port, "9000");
    assert_eq!(m.selected_field, 0);
}

#[test]
fn full_art_key_is_saved_in_the_settings() {
    let mut app = App::new(None);
    let mut cfg = Config::default();
    let mut esc = None;
    let (_, flags) = handle_key(&mut app, key(KeyCode::Char('`')), &mut cfg, &mut esc, 0);
    assert!(app.full_art_mode);
    assert!(cfg.full_art_mode);
    assert!(flags.save_config && flags.art_mode_changed);
    let (_, flags) = handle_key(&mut app, key(KeyCode::Char('`')), &mut cfg, &mut esc, 0);
    assert!(!app.full_art_mode && !cfg.full_art_mode && flags.save_config);
}

#[test]
fn quit_dialog_answers_clicks() {
    let l = layout();
    let mut app = App::new(None);
    app.confirm_quit = true;
    app.quit_selected_button = 0;
    let mut cfg = Config::default();
    let mut last = None;
    let inside = MouseInput { kind: MouseKind::LeftDown, col: 40, row: 16 };
    let (effects, save) = handle_mouse_event(&mut app, inside, &l, 0, 0, &mut last, &mut cfg, 0);
    assert!(effects.is_empty() && !save);
    assert!(app.confirm_quit);
    let outside = MouseInput { kind: MouseKind::LeftDown, col: 1, row: 1 };
    let _ = handle_mouse_event(&mut app, outside, &l, 0, 0, &mut last, &mut cfg, 0);
    assert!(!app.confirm_quit);
    assert_eq!(app.quit_selected_button, 1);
    assert!(!app.should_quit);
    app.confirm_quit = true;
    let quit = MouseInput { kind: MouseKind::LeftDown, col: 36, row: 19 };
    let _ = handle_mouse_event(&mut app, quit, &l, 0, 0, &mut last, &mut cfg, 0);
    assert!(app.should_quit && !app.confirm_quit);
}

#[test]
fn clicking_the_bar_title_shows_the_players() {
    let l = layout();
    let mut app = App::new(None);
    app.main_selected = 4;
    let mut cfg = Config::default();
    let mut last = None;
    let ev = MouseInput { kind: MouseKind::LeftDown, col: 50, row: 30 };
    let (effects, save) = handle_mouse_event(&mut app, ev, &l, 0, 0, &mut last, &mut cfg, 0);
    assert!(effects.is_empty() && !save);
    assert!(matches!(app.main_view, MainView::Players));
    assert!(!app.focus_sidebar);
    assert_eq!(app.main_selected, 0);
}

#[test]
fn clicking_the_sidebar_title_asks_to_quit() {
    let l = layout();
    let mut app = App::new(None);
    let mut cfg = Config::default();
    let mut last = None;
    let ev = MouseInput { kind: MouseKind::LeftDown, col: 5, row: 0 };
    let _ = handle_mouse_event(&mut app, ev, &l, 0, 0, &mut last, &mut cfg, 0);
    assert!(app.confirm_quit);
    assert_eq!(app.quit_selected_button, 1);
}

#[test]
fn wheel_over_the_main_panel_focuses_it() {
    let l = layout();
    let mut app = App::new(None);
    assert!(app.focus_sidebar);
    let mut cfg = Config::default();
    let mut last = None;
    let ev = MouseInput { kind: MouseKind::ScrollDown, col: 50, row: 10 };
    let _ = handle_mouse_event(&mut app, ev, &l, 0, 0, &mut last, &mut cfg, 0);
    assert!(!app.focus_sidebar);
}

#[test]
fn clicking_a_sidebar_entry_opens_it() {
    let l = layout();
    let mut app = App::new(None);
    let mut cfg = Config::default();
    let mut last = None;
    let ev = MouseInput { kind: MouseKind::LeftDown, col: 5, row: 7 };
    let _ = handle_mouse_event(&mut app, ev, &l, 0, 0, &mut last, &mut cfg, 0);
    assert_eq!(app.sidebar_selected, 6);
    assert!(matches!(app.main_view, MainView::Players));
}

#[test]
fn power_button_of_the_all_players_row() {
    let l = layout();
    let mut app = App::new(None);
    app.main_view = MainView::Players;
    app.players = vec![
        lyrtui::api::Player { playerid: "aa".to_string(), name: "Kitchen".to_string(), is_playing: 0, power: 1 },
        lyrtui::api::Player { playerid: "bb".to_string(), name: "Den".to_string(), is_playing: 0, power: 0 },
    ];
    let mut cfg = Config::default();
    let mut last = None;
    let ev = MouseInput { kind: MouseKind::LeftDown, col: 23, row: 1 };
    let (effects, _) = handle_mouse_event(&mut app, ev, &l, 0, 0, &mut last, &mut cfg, 0);
    assert_eq!(effects.len(), 1);
    match &effects[0] {
        Effect::PowerAll(ids, on) => {
            assert_eq!(ids, &vec!["aa".to_string(), "bb".to_string()]);
            assert!(*on);
        },
        other => panic!("unexpected {:?}", other),
    }
    let row2 = MouseInput { kind: MouseKind::LeftDown, col: 23, row: 3 };
    let (effects, _) = handle_mouse_event(&mut app, row2, &l, 0, 0, &mut last, &mut cfg, 0);
    assert!(matches!(&effects[0], Effect::Fire(Call::SetPower(p, true)) if p == "bb"));
}

#[test]
fn digit_keys_jump_to_sidebar_entries() {
    assert_eq!(key_to_action(key(KeyCode::Char('1'))), Action::NavToSidebar(0));
    assert_eq!(key_to_action(key(KeyCode::Char('9'))), Action::NavToSidebar(8));
    assert_eq!(key_to_action(key(KeyCode::Char('0'))), Action::Nothing);
}

#[test]
fn a_fresh_state_fits_every_key() {
    let app = App::new(None);
    for code in [KeyCode::Char('a'), KeyCode::Enter, KeyCode::Backspace, KeyCode::Down, KeyCode::Esc] {
        assert!(key_fits(&app, key(code)));
    }
    let mut app = App::new(None);
    app.focus_sidebar = false;
    app.main_view = MainView::Queue;
    app.main_selected = usize::MAX - 3;
    assert!(!key_fits(&app, key(KeyCode::PageDown)));
    assert!(key_fits(&app, key(KeyCode::PageUp)));
}

#[test]
fn settings_dialog_fits_its_keys() {
    let mut app = App::new(None);
    open_config(&mut app, &Config::default());
    assert!(key_fits(&app, key(KeyCode::Char('s'))));
    {
        let m = app.config_modal.as_mut().unwrap();
        m.image_protocol_idx = 9;
    }
    assert!(!key_fits(&app, key(KeyCode::Char('s'))));
    assert!(key_fits(&app, key(KeyCode::Down)));
    {
        let m = app.config_modal.as_mut().unwrap();
        m.selected_field = 1;
        m.editing = true;
        m.cursor_pos = 99;
    }
    assert!(key_fits(&app, key(KeyCode::Char('x'))));
    assert!(!key_fits(&app, key(KeyCode::Char('5'))));
}

#[test]
fn playback_buttons_of_a_row() {
    let r = lyrtui::geometry::control_button_areas(area(10, 5, 60, 1));
    let xs: Vec<u16> = r.iter().map(|a| a.x).collect();
    assert_eq!(xs, vec![10, 14, 18, 22, 28, 32, 38, 42]);
    assert!(r.iter().all(|a| a.y == 5 && a.width == 3 && a.height == 1));
}

#[test]
fn progress_fill_leaves_the_caps() {
    let f = lyrtui::geometry::progress_fill_area(area(4, 2, 30, 1), false);
    assert_eq!((f.x, f.y, f.width, f.height), (5, 2, 28, 1));
    let f = lyrtui::geometry::progress_fill_area(area(4, 2, 30, 1), true);
    assert_eq!(f.width, 27);
    let f = lyrtui::geometry::progress_fill_area(area(4, 2, 1, 1), true);
    assert_eq!(f.width, 0);
}

#[test]
fn slash_opens_the_list_filter() {
    assert_eq!(key_to_action(key(KeyCode::Char('/'))), Action::OpenLocalFilter);
}

fn artist(name: &str) -> lyrtui::api::Artist {
    lyrtui::api::Artist { id: name.to_string(), artist: name.to_string() }
}

fn names(app: &App) -> Vec<String> {
    app.artists.iter().map(|a| a.artist.clone()).collect()
}

#[test]
fn the_list_filter_narrows_and_restores() {
    let mut app = App::new(None);
    let mut cfg = Config::default();
    let mut esc = None;
    app.main_view = MainView::Library(lyrtui::app::LibraryView::Artists);
    app.focus_sidebar = false;
    app.artists = vec![artist("Abba"), artist("Beatles"), artist("Cabaret")];
    let _ = handle_key(&mut app, key(KeyCode::Char('/')), &mut cfg, &mut esc, 0);
    assert!(app.local_filter.as_ref().map_or(false, |f| f.editing));
    for c in ['A', 'B'] {
        let _ = handle_key(&mut app, key(KeyCode::Char(c)), &mut cfg, &mut esc, 0);
    }
    assert_eq!(names(&app), vec!["Abba".to_string(), "Cabaret".to_string()]);
    let _ = handle_key(&mut app, key(KeyCode::Backspace), &mut cfg, &mut esc, 0);
    assert_eq!(names(&app), vec!["Abba".to_string(), "Beatles".to_string(), "Cabaret".to_string()]);
    let _ = handle_key(&mut app, key(KeyCode::Char('t')), &mut cfg, &mut esc, 0);
    assert_eq!(names(&app), vec!["Beatles".to_string()]);
    let _ = handle_key(&mut app, key(KeyCode::Enter), &mut cfg, &mut esc, 0);
    assert!(app.local_filter.as_ref().map_or(false, |f| !f.editing));
    // Up at the top of the list edits the query again; Enter leaves it.
    let _ = handle_key(&mut app, key(KeyCode::Up), &mut cfg, &mut esc, 0);
    assert!(app.local_filter.as_ref().map_or(false, |f| f.editing));
    let _ = handle_key(&mut app, key(KeyCode::Enter), &mut cfg, &mut esc, 0);
    // Back closes the filter and gives the whole list back.
    let _ = handle_key(&mut app, key(KeyCode::Esc), &mut cfg, &mut esc, 0);
    assert!(app.local_filter.is_none());
    assert_eq!(names(&app), vec!["Abba".to_string(), "Beatles".to_string(), "Cabaret".to_string()]);
    assert!(matches!(app.main_view, MainView::Library(lyrtui::app::LibraryView::Artists)));
}

#[test]
fn the_list_filter_is_not_on_players() {
    let mut app = App::new(None);
    let mut cfg = Config::default();
    let mut esc = None;
    app.main_view = MainView::Players;
    app.focus_sidebar = false;
    let _ = handle_key(&mut app, key(KeyCode::Char('/')), &mut cfg, &mut esc, 0);
    assert!(app.local_filter.is_none());
}

#[test]
fn screen_panes() {
    let (side, main) = lyrtui::geometry::compute_areas(area(0, 0, 100, 40), 11);
    assert_eq!((side.x, side.y, side.width, side.height), (0, 0, 20, 28));
    assert_eq!((main.x, main.y, main.width, main.height), (20, 0, 80, 28));
}

#[test]
fn settings_rows() {
    let rows = lyrtui::geometry::config_field_rows(area(10, 5, 60, 20), 3);
    assert_eq!(rows.len(), 3);
    assert_eq!((rows[0].x, rows[0].y, rows[0].width, rows[0].height), (11, 7, 58, 1));
    assert_eq!(rows[2].y, 9);
}
