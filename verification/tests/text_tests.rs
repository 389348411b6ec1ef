use lyrtui::background::{accent_from_pixels, pick_accent, rp_channel_num};
use lyrtui::cli::{format_track, yn};
use lyrtui::config::{parse_u16, parse_u64, trim_owned, Config};
use lyrtui::display::{breadcrumb_str, build_bar_fill, format_duration, truncate_ellipsis};
use lyrtui::filter::text_matches;
use lyrtui::groups::synced_ids;
use lyrtui::text::{contains, push_decimal, string_push, u64_to_string};

#[test]
fn decimal_text_of_numbers() {
    assert_eq!(u64_to_string(0), "0");
    assert_eq!(u64_to_string(7), "7");
    assert_eq!(u64_to_string(9000), "9000");
    assert_eq!(u64_to_string(u64::MAX), "18446744073709551615");
}

#[test]
fn push_appends_one_character() {
    let mut s = String::from("ab");
    string_push(&mut s, 'c');
    string_push(&mut s, '\u{2026}');
    assert_eq!(s, "abc\u{2026}");
    let mut t = String::from("vol ");
    push_decimal(&mut t, 42);
    assert_eq!(t, "vol 42");
}

#[test]
fn port_text_is_read_as_u16_from_str_reads_it() {
    assert_eq!(parse_u16("9000"), Some(9000));
    assert_eq!(parse_u16("+80"), Some(80));
    assert_eq!(parse_u16("0065535"), Some(65535));
    assert_eq!(parse_u16("65536"), None);
    assert_eq!(parse_u16(""), None);
    assert_eq!(parse_u16("+"), None);
    assert_eq!(parse_u16("90a0"), None);
    assert_eq!(parse_u16(" 90"), None);
    assert_eq!(parse_u16("-1"), None);
}

#[test]
fn port_text_round_trip() {
    for p in [0u16, 1, 80, 9000, 65535] {
        assert_eq!(parse_u16(&u64_to_string(p as u64)), Some(p));
    }
}

#[test]
fn long_numbers_are_read_as_u64_from_str_reads_them() {
    assert_eq!(parse_u64("2024"), Some(2024));
    assert_eq!(parse_u64("18446744073709551615"), Some(u64::MAX));
    assert_eq!(parse_u64("18446744073709551616"), None);
    assert_eq!(parse_u64("x"), None);
}

#[test]
fn trimming_drops_surrounding_whitespace() {
    assert_eq!(trim_owned("  host.local \t"), "host.local");
    assert_eq!(trim_owned("   "), "");
    assert_eq!(trim_owned("a b"), "a b");
}

#[test]
fn substring_search() {
    assert!(contains("radio paradise", "para"));
    assert!(contains("abc", ""));
    assert!(!contains("abc", "abcd"));
    assert!(!contains("", "a"));
}

#[test]
fn matching_ignores_case_of_the_haystack() {
    assert!(text_matches("abc", "xABCx"));
    assert!(text_matches("", "anything"));
    assert!(!text_matches("abd", "xABCx"));
    assert!(text_matches("ü", "Ü"));
}

#[test]
fn durations_are_written_as_clock_times() {
    assert_eq!(format_duration(0), "0:00");
    assert_eq!(format_duration(65), "1:05");
    assert_eq!(format_duration(600), "10:00");
    assert_eq!(format_duration(3661), "1:01:01");
}

#[test]
fn long_texts_end_in_an_ellipsis() {
    assert_eq!(truncate_ellipsis("Hello world", 5), "Hell\u{2026}");
    assert_eq!(truncate_ellipsis("Hello", 5), "Hello");
    assert_eq!(truncate_ellipsis("Hello", 0), "\u{2026}");
}

#[test]
fn bars_fill_in_proportion() {
    assert_eq!(build_bar_fill(50, 4), "\u{2588}\u{2588}\u{2591}\u{2591}");
    assert_eq!(build_bar_fill(100, 3), "\u{2588}\u{2588}\u{2588}");
    assert_eq!(build_bar_fill(0, 2), "\u{2591}\u{2591}");
    assert_eq!(build_bar_fill(33, 10), "\u{2588}\u{2588}\u{2588}\u{2591}\u{2591}\u{2591}\u{2591}\u{2591}\u{2591}\u{2591}");
}

#[test]
fn breadcrumbs_join_the_path() {
    assert_eq!(breadcrumb_str(&vec![], "Radio"), "Radio");
    assert_eq!(
        breadcrumb_str(&vec!["Radio".to_string(), "Local".to_string()], "Jazz"),
        "Radio \u{203A} Local \u{203A} Jazz"
    );
}

#[test]
fn yes_or_no() {
    assert_eq!(yn(true), "yes");
    assert_eq!(yn(false), "no");
}

#[test]
fn tracks_as_the_command_line_reports_them() {
    assert_eq!(format_track("", "Someone"), "(unknown)");
    assert_eq!(format_track("Song", ""), "\"Song\"");
    assert_eq!(format_track("Song", "Band"), "\"Song\" \u{2014} Band");
}

#[test]
fn radio_paradise_channels() {
    assert_eq!(rp_channel_num(Some("b44f4573.2")), Some(2));
    assert_eq!(rp_channel_num(Some("b44f4573.3.1")), Some(3));
    assert_eq!(rp_channel_num(Some("b44f4573")), None);
    assert_eq!(rp_channel_num(Some("b44f4573.x")), None);
    assert_eq!(rp_channel_num(Some("b44f4573.256")), None);
    assert_eq!(rp_channel_num(Some("a..b")), None);
    assert_eq!(rp_channel_num(None), None);
}

#[test]
fn accent_prefers_moderate_brightness() {
    let colors = vec![(0u8, 0u8, 0u8), (250, 250, 250), (200, 60, 60), (10, 200, 10)];
    assert_eq!(pick_accent(&colors), Some([200, 60, 60]));
    let dark = vec![(1u8, 2u8, 3u8), (4, 5, 6)];
    assert_eq!(pick_accent(&dark), Some([1, 2, 3]));
    assert_eq!(pick_accent(&vec![]), None);
}

#[test]
fn accent_of_a_plain_picture() {
    let mut pixels = Vec::new();
    for _ in 0..400 {
        pixels.extend_from_slice(&[200u8, 60, 60]);
    }
    for _ in 0..400 {
        pixels.extend_from_slice(&[20u8, 20, 200]);
    }
    let accent = accent_from_pixels(&pixels);
    assert!(accent.is_some());
    assert_ne!(accent, Some([0, 0, 0]));
}

#[test]
fn default_settings_and_server_address() {
    let cfg = Config::default();
    assert_eq!(cfg.port, 9000);
    assert_eq!(cfg.base_url(), "http://localhost:9000/jsonrpc.js");
    assert_eq!(cfg.credentials(), None);
    let mut with_user = Config::default();
    with_user.username = Some("me".to_string());
    with_user.password = Some("pw".to_string());
    assert_eq!(with_user.credentials(), Some(("me".to_string(), "pw".to_string())));
}

#[test]
fn synced_ids_are_sorted_trimmed_and_distinct() {
    let ids = synced_ids(Some("b"), Some(" c, a ,,self,b"), "self");
    assert_eq!(ids, vec!["a".to_string(), "b".to_string(), "c".to_string()]);
}

#[test]
fn synced_ids_leave_out_the_player_itself() {
    assert!(synced_ids(Some("self"), None, "self").is_empty());
    assert!(synced_ids(None, Some(""), "p").is_empty());
    assert_eq!(synced_ids(Some(""), Some("x"), "p"), vec!["x".to_string()]);
}
