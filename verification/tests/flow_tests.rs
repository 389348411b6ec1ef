use lyrtui::api::{now_playing_from, queue_track, search_album, search_artist, search_playlist, search_track, Artist, Player, QueueEntry, RadioItem, StatusReply};
use lyrtui::app::{App, MainView, SearchResultItem, SearchScope};
use lyrtui::config::Config;
use lyrtui::discovery::{discover_lms, parse_json_port, reply_port, take_reply};
use lyrtui::editing::{input_backspace, input_insert};
use lyrtui::effects::Effect;
use lyrtui::handlers::next_enabled_delete_option;
use lyrtui::messages::{handle_msg, set_timed_status, AppMsg};
use lyrtui::navigation::{nav_down, nav_up, toggle_full_art_mode};
use lyrtui::search::{search_folders, search_node, search_plan, search_results};
use lyrtui::session::{artist_art_request, artwork_fetch_failed, artwork_update, folder_art_request, remember_player, startup_app, startup_layout, thumb_range};
use lyrtui::volume::{adjust_volume, average_volume, toggle_mute_player};
use lyrtui::utils::thumbnail_url_for;
use lyrtui::api::{extract_id, Album, FolderItem, FolderItemType};
use lyrtui::filter::is_filterable;
use lyrtui::config_dialog::open_config;
use lyrtui::app::LibraryView;

fn item(name: &str, item_type: &str, cmd: Option<&str>, id: Option<&str>) -> RadioItem {
    RadioItem {
        name: name.to_string(),
        item_type: item_type.to_string(),
        url: None,
        cmd: cmd.map(|c| c.to_string()),
        item_id: id.map(|i| i.to_string()),
        artwork_url: None,
        has_items: false,
        is_audio: false,
    }
}

fn status() -> StatusReply {
    StatusReply {
        title: Some("Song".to_string()),
        artist: None,
        album: Some("Album".to_string()),
        year_num: None,
        year_text: Some("1999".to_string()),
        volume: 40,
        mode: Some("play".to_string()),
        shuffle: Some(1),
        repeat: None,
        artwork_url: None,
        artwork_track_id: Some("77".to_string()),
        track_id: Some("12".to_string()),
        cur_index_num: Some(3),
        cur_index_text: None,
    }
}

#[test]
fn discovery_reply_port() {
    let reply = b"ENAME\x03lmsJSON\x049001";
    assert_eq!(parse_json_port(reply, reply.len()), Some(9001));
    assert_eq!(reply_port(reply, reply.len()), 9001);
    let no_port = b"ENAME\x03lms";
    assert_eq!(reply_port(no_port, no_port.len()), 9000);
    let cut = b"EJSON\x049";
    assert_eq!(parse_json_port(cut, cut.len()), None);
}

#[test]
fn discovery_records_each_server_once() {
    let mut found = Vec::new();
    let reply = b"EJSON\x049002";
    assert!(take_reply(&mut found, reply, reply.len(), "10.0.0.2".to_string()));
    assert!(take_reply(&mut found, b"ENAME\x01x", 7, "10.0.0.3".to_string()));
    assert!(take_reply(&mut found, reply, reply.len(), "10.0.0.2".to_string()));
    assert!(!take_reply(&mut found, b"X", 1, "10.0.0.4".to_string()));
    assert_eq!(found, vec![("10.0.0.2".to_string(), 9002), ("10.0.0.3".to_string(), 9000)]);
    assert_eq!(discover_lms(found), Some(("10.0.0.2".to_string(), 9002)));
    assert_eq!(discover_lms(vec![]), None);
}

#[test]
fn status_reply_to_now_playing() {
    let np = now_playing_from(&status(), "http://h:9000");
    assert_eq!(np.title, "Song");
    assert_eq!(np.artist, "");
    assert_eq!(np.year, Some(1999));
    assert!(np.is_playing);
    assert_eq!(np.shuffle, 1);
    assert_eq!(np.repeat, 0);
    assert_eq!(np.volume, 40);
    assert_eq!(np.artwork_url, Some("http://h:9000/music/77/cover.jpg".to_string()));
    assert_eq!(np.playlist_cur_index, Some(3));
    let mut s = status();
    s.year_text = Some("0".to_string());
    s.mode = Some("pause".to_string());
    s.artwork_url = Some("/imageproxy/x.png".to_string());
    s.shuffle = Some(257);
    let np = now_playing_from(&s, "http://h:9000");
    assert_eq!(np.year, None);
    assert!(!np.is_playing);
    assert_eq!(np.shuffle, 1);
    assert_eq!(np.artwork_url, Some("http://h:9000/imageproxy/x.png".to_string()));
}

#[test]
fn queue_entries_to_rows() {
    let e = QueueEntry {
        id: Some("5".to_string()),
        title: None,
        artist: Some("A".to_string()),
        album: None,
        duration_secs: Some(180),
        artwork_url: Some("".to_string()),
        artwork_track_id: None,
    };
    let t = queue_track(&e, "http://h");
    assert_eq!(t.title, "Unknown");
    assert_eq!(t.artwork_url, Some("http://h/music/5/cover.jpg".to_string()));
    assert_eq!(t.duration_secs, Some(180));
}

#[test]
fn search_reply_entries() {
    let a = search_artist(Some("Band"), Some(12)).unwrap();
    assert_eq!((a.id.as_str(), a.artist.as_str()), ("12", "Band"));
    assert!(search_artist(Some("Band"), None).is_none());
    assert!(search_album(None, Some(1), None).is_none());
    let t = search_track(Some("Song"), Some(9), None, Some("LP"), None).unwrap();
    assert_eq!(t.id, Some("9".to_string()));
    assert!(t.artwork_url.is_none());
    assert_eq!(search_playlist(Some("Mix"), Some(3)).unwrap().name, "Mix");
}

#[test]
fn scopes_choose_the_searches() {
    let apps = vec![item("Spotty", "link", Some("spotty"), None), item("Broken", "link", None, None)];
    let radios = vec![item("TuneIn", "link", Some("tunein"), None)];
    let p = search_plan(SearchScope::MyMusic, &apps, &radios);
    assert!(p.library && p.radio_cmds.is_empty() && p.app_cmds.is_empty());
    let p = search_plan(SearchScope::All, &apps, &radios);
    assert!(p.library);
    assert_eq!(p.radio_cmds, vec!["tunein".to_string()]);
    assert_eq!(p.app_cmds, vec!["spotty".to_string()]);
    let p = search_plan(SearchScope::Apps, &apps, &radios);
    assert!(!p.library && p.radio_cmds.is_empty());
}

#[test]
fn search_results_in_order() {
    let lib = Some((vec![Artist { id: "1".to_string(), artist: "Jazz Band".to_string() }], vec![], vec![], vec![]));
    let radios = vec![vec![item("JAZZ FM", "audio", None, None), item("Rock FM", "audio", None, None)]];
    let apps = vec![vec![item("Anything", "audio", None, None)]];
    let r = search_results(lib, &radios, &apps, "Jazz");
    assert_eq!(r.len(), 3);
    assert!(matches!(&r[0], SearchResultItem::Artist(a) if a.artist == "Jazz Band"));
    assert!(matches!(&r[1], SearchResultItem::RadioItem(i) if i.name == "JAZZ FM"));
    assert!(matches!(&r[2], SearchResultItem::AppItem(i) if i.name == "Anything"));
}

#[test]
fn where_an_app_keeps_its_search() {
    let top = vec![item("Browse", "link", None, Some("b")), item("Search", "link", None, Some("s1")), item("Go", "search", None, Some("s2"))];
    assert_eq!(search_node(&top), Some(Some("s2".to_string())));
    assert_eq!(search_folders(&top), vec!["s1".to_string()]);
    let plain = vec![item("Browse", "link", None, Some("b"))];
    assert_eq!(search_node(&plain), None);
    assert!(search_folders(&plain).is_empty());
}

#[test]
fn startup_panel_for_a_font() {
    assert_eq!(startup_layout((8, 16)), (9, 14));
    let mut cfg = Config::default();
    cfg.full_art_mode = true;
    cfg.default_player = Some("aa".to_string());
    let app = startup_app(&cfg, (8, 16));
    assert!(app.full_art_mode && !app.focus_sidebar);
    assert_eq!(app.active_player, Some("aa".to_string()));
    assert_eq!((app.status_height, app.art_col_w), (9, 14));
}

#[test]
fn thumbnail_rows() {
    let mut app = App::new(None);
    app.main_view = MainView::Queue;
    app.queue = (0..40).map(|i| lyrtui::api::Track { id: None, title: format!("t{}", i), artist: None, album: None, duration_secs: None, artwork_url: None }).collect();
    assert_eq!(thumb_range(33, 2, &app), (2, 17));
    assert_eq!(thumb_range(10, 38, &app), (38, 40));
}

#[test]
fn cover_changes_are_followed() {
    let mut app = App::new(None);
    let mut last = None;
    assert_eq!(artwork_update(&mut app, &mut last), (false, None));
    app.now_playing = Some(now_playing_from(&status(), "http://h"));
    let (changed, fetch) = artwork_update(&mut app, &mut last);
    assert!(changed);
    assert_eq!(fetch, Some("http://h/music/77/cover.jpg".to_string()));
    assert_eq!(artwork_update(&mut app, &mut last), (false, None));
    app.art_image_size = Some((10, 10));
    app.now_playing = None;
    assert_eq!(artwork_update(&mut app, &mut last), (true, None));
    assert_eq!(app.art_image_size, None);
}

#[test]
fn covers_are_looked_up_once() {
    let mut app = App::new(None);
    app.main_view = MainView::Library(lyrtui::app::LibraryView::Artists);
    app.artists = vec![Artist { id: "7".to_string(), artist: "X".to_string() }];
    let mut pending = Vec::new();
    assert_eq!(artist_art_request(&app, 0, &mut pending), Some("7".to_string()));
    assert_eq!(artist_art_request(&app, 0, &mut pending), None);
    assert_eq!(artist_art_request(&app, 1, &mut pending), None);
    assert_eq!(pending, vec!["7".to_string()]);
    let mut folders = Vec::new();
    assert_eq!(folder_art_request(&app, 0, &mut folders), None);
}

#[test]
fn the_active_player_is_remembered() {
    let mut app = App::new(None);
    let mut cfg = Config::default();
    assert!(!remember_player(&app, &mut cfg));
    app.active_player = Some("aa".to_string());
    assert!(remember_player(&app, &mut cfg));
    assert_eq!(cfg.default_player, Some("aa".to_string()));
    assert!(!remember_player(&app, &mut cfg));
}

#[test]
fn mute_then_unmute_restores_the_volume() {
    let mut app = App::new(None);
    app.player_volumes.insert("aa", 35);
    let e1 = toggle_mute_player(&mut app, "aa", 10);
    assert_eq!(app.player_volumes.get("aa"), Some(&0));
    assert!(matches!(&e1[0], Effect::SendVolume(p, 0) if p == "aa"));
    let e2 = toggle_mute_player(&mut app, "aa", 20);
    assert_eq!(app.player_volumes.get("aa"), Some(&35));
    assert!(matches!(&e2[0], Effect::SendVolume(p, 35) if p == "aa"));
    assert_eq!(app.muted_volumes.get("aa"), None);
}

#[test]
fn volume_stays_within_range() {
    let mut app = App::new(Some("aa".to_string()));
    app.now_playing = Some(now_playing_from(&status(), "http://h"));
    let _ = adjust_volume(&mut app, 100, 0);
    assert_eq!(app.now_playing.as_ref().unwrap().volume, 100);
    let e = adjust_volume(&mut app, -100, 0);
    assert_eq!(app.now_playing.as_ref().unwrap().volume, 0);
    assert!(matches!(&e[0], Effect::SendVolume(p, 0) if p == "aa"));
    let _ = adjust_volume(&mut app, -5, 0);
    assert_eq!(app.now_playing.as_ref().unwrap().volume, 0);
}

#[test]
fn insert_then_backspace_gives_the_text_back() {
    let mut s = "héllo".to_string();
    let mut cursor = 2;
    input_insert(&mut s, &mut cursor, 'X');
    assert_eq!((s.as_str(), cursor), ("héXllo", 3));
    input_backspace(&mut s, &mut cursor);
    assert_eq!((s.as_str(), cursor), ("héllo", 2));
}

#[test]
fn navigation_stays_in_the_list() {
    let mut app = App::new(None);
    app.focus_sidebar = false;
    app.main_view = MainView::Queue;
    app.queue = (0..3).map(|i| lyrtui::api::Track { id: None, title: format!("t{}", i), artist: None, album: None, duration_secs: None, artwork_url: None }).collect();
    for _ in 0..5 {
        nav_down(&mut app);
    }
    assert_eq!(app.main_selected, 2);
    for _ in 0..5 {
        nav_up(&mut app);
    }
    assert_eq!(app.main_selected, 0);
}

#[test]
fn delete_dialog_skips_disabled_options() {
    let enabled = [true, false, false, true, true];
    assert_eq!(next_enabled_delete_option(0, 1, &enabled), 3);
    assert_eq!(next_enabled_delete_option(3, -1, &enabled), 0);
    assert_eq!(next_enabled_delete_option(4, 1, &enabled), 0);
}

#[test]
fn full_art_mode_round_trip_restores_the_selection() {
    let mut app = App::new(None);
    app.focus_sidebar = false;
    app.main_selected = 5;
    toggle_full_art_mode(&mut app);
    assert!(app.full_art_mode);
    assert_eq!(app.main_selected, 0);
    toggle_full_art_mode(&mut app);
    assert!(!app.full_art_mode);
    assert_eq!(app.main_selected, 5);
}

#[test]
fn status_is_cleared_only_by_its_own_generation() {
    let mut app = App::new(None);
    let e = set_timed_status(&mut app, "first".to_string());
    let first = match &e[0] {
        Effect::ClearStatusLater(g) => *g,
        other => panic!("unexpected {:?}", other),
    };
    let _ = set_timed_status(&mut app, "second".to_string());
    let _ = handle_msg(&mut app, AppMsg::ClearStatusMsg(first), false, 0);
    assert_eq!(app.status_message, Some("second".to_string()));
    let now_gen = app.status_message_gen;
    let _ = handle_msg(&mut app, AppMsg::ClearStatusMsg(now_gen), false, 0);
    assert_eq!(app.status_message, None);
}

#[test]
fn players_load_selects_one() {
    let mut app = App::new(None);
    let players = vec![Player { playerid: "aa".to_string(), name: "Kitchen".to_string(), is_playing: 0, power: 1 }];
    let _ = handle_msg(&mut app, AppMsg::PlayersLoaded(players), false, 0);
    assert_eq!(app.players.len(), 1);
}

#[test]
fn an_absent_track_id_reads_as_empty_text() {
    assert_eq!(extract_id(&None), "");
    assert_eq!(extract_id(&Some("42".to_string())), "42");
}

#[test]
fn which_views_can_be_narrowed() {
    assert!(is_filterable(&MainView::Library(LibraryView::PopularAlbums)));
    assert!(is_filterable(&MainView::Library(LibraryView::Artists)));
    assert!(is_filterable(&MainView::Queue));
    assert!(!is_filterable(&MainView::MyMusic));
    assert!(!is_filterable(&MainView::Players));
    assert!(!is_filterable(&MainView::Search));
}

#[test]
fn a_scan_without_servers_selects_the_scan_button() {
    let mut app = App::new(None);
    open_config(&mut app, &Config::default());
    let _ = handle_msg(&mut app, AppMsg::DiscoveredServers(vec![]), false, 0);
    assert_eq!(app.config_modal.as_ref().unwrap().selected_field, 6);
    let _ = handle_msg(&mut app, AppMsg::DiscoveredServers(vec!["10.0.0.2:9000".to_string()]), false, 0);
    let m = app.config_modal.as_ref().unwrap();
    assert_eq!(m.selected_field, 7);
    assert_eq!(m.discovered_servers, vec!["10.0.0.2:9000".to_string()]);
}

#[test]
fn the_all_players_volume_is_the_average() {
    let mut app = App::new(None);
    assert_eq!(average_volume(&app), 0);
    let p = |id: &str| Player { playerid: id.to_string(), name: id.to_string(), is_playing: 0, power: 1 };
    app.players = vec![p("a"), p("b"), p("c")];
    app.player_volumes.insert("a", 50);
    app.player_volumes.insert("b", 25);
    assert_eq!(average_volume(&app), 25);
}

#[test]
fn a_failed_cover_is_asked_again() {
    let mut last = Some("http://h/a.jpg".to_string());
    artwork_fetch_failed(&mut last, "http://h/other.jpg");
    assert_eq!(last, Some("http://h/a.jpg".to_string()));
    artwork_fetch_failed(&mut last, "http://h/a.jpg");
    assert_eq!(last, None);
}

#[test]
fn the_start_state_is_empty() {
    let app = startup_app(&Config::default(), (8, 16));
    assert!(matches!(app.main_view, MainView::MyMusic));
    assert!(app.queue.is_empty() && app.artists.is_empty() && app.folder_nav_stack.is_empty());
    assert_eq!(app.saved_main_selected, None);
    assert_eq!(app.delete_queue_selected_button, 0);
    assert!(app.search_query.is_empty());
}

#[test]
fn row_pictures() {
    let base = "http://h:9000";
    let mut app = App::new(None);
    app.main_view = MainView::Library(LibraryView::Albums { artist_id: None });
    app.albums = vec![Album { id: "7".to_string(), album: "A".to_string(), artist: None }];
    assert_eq!(thumbnail_url_for(&app, 0, base), Some("http://h:9000/music/7/cover.jpg".to_string()));
    assert_eq!(thumbnail_url_for(&app, 1, base), None);
    app.main_view = MainView::Library(LibraryView::Folder { folder_id: None });
    app.folder_items = vec![
        FolderItem { id: 12, filename: "t".to_string(), item_type: FolderItemType::Track, duration: None },
        FolderItem { id: 13, filename: "d".to_string(), item_type: FolderItemType::Folder, duration: None },
    ];
    assert_eq!(thumbnail_url_for(&app, 0, base), Some("http://h:9000/music/12/cover.jpg".to_string()));
    assert_eq!(thumbnail_url_for(&app, 1, base), None);
    app.folder_artwork.insert("13", Some("http://h:9000/x.jpg".to_string()));
    assert_eq!(thumbnail_url_for(&app, 1, base), Some("http://h:9000/x.jpg".to_string()));
    app.main_view = MainView::Players;
    assert_eq!(thumbnail_url_for(&app, 0, base), None);
}

#[test]
fn a_reloaded_list_stays_filtered() {
    let mut app = App::new(None);
    app.main_view = MainView::Library(LibraryView::Artists);
    app.focus_sidebar = false;
    app.artists = vec![Artist { id: "1".to_string(), artist: "Abba".to_string() }];
    lyrtui::filter::open(&mut app);
    if let Some(f) = &mut app.local_filter {
        f.query = "zz".to_string();
        f.editing = false;
    }
    lyrtui::filter::recompute(&mut app);
    assert!(app.artists.is_empty());
    let fresh = vec![
        Artist { id: "2".to_string(), artist: "ZZ Top".to_string() },
        Artist { id: "3".to_string(), artist: "Queen".to_string() },
    ];
    let _ = handle_msg(&mut app, AppMsg::ArtistsLoaded(fresh), false, 0);
    let shown: Vec<String> = app.artists.iter().map(|a| a.artist.clone()).collect();
    assert_eq!(shown, vec!["ZZ Top".to_string()]);
    lyrtui::filter::clear(&mut app);
    assert_eq!(app.artists.len(), 2);
}

#[test]
fn the_filter_closes_when_the_view_changes() {
    let mut app = App::new(None);
    app.main_view = MainView::Queue;
    lyrtui::filter::open(&mut app);
    assert!(app.local_filter.is_some());
    lyrtui::filter::clear_if_view_changed(&mut app);
    assert!(app.local_filter.is_some());
    app.main_view = MainView::Radio;
    lyrtui::filter::clear_if_view_changed(&mut app);
    assert!(app.local_filter.is_none());
}
