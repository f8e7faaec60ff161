//! What the operator may ask for and is shown.

use tibia_bot::health::HealthStatus;
use tibia_bot::instrumentation::registry::MetricsRegistry;
use tibia_bot::keycode::{KeyMap, KeyName};
use tibia_bot::loop_::commands::LoopCommand;
use tibia_bot::remote::access::{
    determine_health, is_authorized, is_hidden, is_safe_recording_path, sanitize_tag, HealthDetails,
};
use tibia_bot::remote::drawing::{
    battle_picture, grab, grab_anchors, inventory_slots, loot_picture, GrabError, Regions,
};
use tibia_bot::remote::exposition::{render_metrics, sanitize_label};
use tibia_bot::remote::picture::{clip, enlarge, Frame, RoiDef};
use tibia_bot::remote::requests::{
    ack_dataset, ack_load, ack_reload, request_cavebot, request_dataset, request_inject_frame,
    request_metrics_recording, request_reload, request_test_key, request_waypoints, send_cmd,
    total_count, validate_load_path, ResolvedPath, MAX_LOAD_FILE_BYTES,
};
use tibia_bot::remote::template::{
    best_match, extract_template, gray_of, match_now, template_region, ExtractError, MatchError,
};
use tibia_bot::state::GameState;

fn health_details(
    has_frame: bool,
    frame_age_ms: Option<u64>,
    is_paused: bool,
    safety_pause_reason: Option<String>,
    ticks_total: u64,
    proc_ms: u64,
) -> HealthDetails {
    HealthDetails {
        has_frame,
        frame_age_ms,
        is_paused,
        safety_pause_reason,
        ticks_total,
        ticks_overrun: 0,
        ndi_latency: 10_000_000,
        pico_latency: 5_000_000,
        bot_proc: proc_ms * 1_000_000,
        fsm_state: "Idle".to_string(),
    }
}

#[test]
fn determine_health_reports_ok_when_all_good() {
    let d = health_details(true, Some(100), false, None, 1000, 15);
    assert_eq!(determine_health(&d), (true, "ok"));
}

#[test]
fn determine_health_reports_no_frame_when_missing() {
    let d = health_details(false, None, false, None, 1000, 15);
    assert_eq!(determine_health(&d), (false, "no_frame"));
}

#[test]
fn determine_health_reports_stale_when_frame_old() {
    let d = health_details(true, Some(5000), false, None, 1000, 15);
    assert_eq!(determine_health(&d), (false, "stale_frame"));
}

#[test]
fn determine_health_reports_paused_manual() {
    let d = health_details(true, Some(100), true, None, 1000, 15);
    assert_eq!(determine_health(&d), (false, "paused_manual"));
}

#[test]
fn determine_health_reports_paused_login_prompt() {
    let reason = Some("prompt:login".to_string());
    let d = health_details(true, Some(100), true, reason, 1000, 15);
    assert_eq!(determine_health(&d), (false, "paused_login"));
}

#[test]
fn determine_health_reports_paused_char_select_prompt() {
    let reason = Some("prompt:char_select".to_string());
    let d = health_details(true, Some(100), true, reason, 1000, 15);
    assert_eq!(determine_health(&d), (false, "paused_char_select"));
}

#[test]
fn determine_health_reports_proc_slow() {
    let d = health_details(true, Some(100), false, None, 1000, 75);
    assert_eq!(determine_health(&d), (false, "proc_slow"));
}

#[test]
fn determine_health_reports_not_started_before_first_tick() {
    let d = health_details(true, Some(100), false, None, 0, 15);
    assert_eq!(determine_health(&d), (false, "not_started"));
}

#[test]
fn is_safe_recording_path_rules() {
    assert!(is_safe_recording_path("session.jsonl"));
    assert!(is_safe_recording_path("data/metrics_v1.jsonl"));
    assert!(is_safe_recording_path("C:\\tmp\\m.jsonl"));
    assert!(!is_safe_recording_path(""));
    assert!(!is_safe_recording_path("with space.jsonl"));
    assert!(!is_safe_recording_path("inject\nnewline"));
    assert!(!is_safe_recording_path("a;rm -rf /;"));
}

#[test]
fn only_the_bearer_of_the_token_may_pass() {
    assert!(is_authorized("/status", None, None));
    assert!(is_authorized("/status", Some(""), None));
    assert!(is_authorized("/health", Some("key"), None));
    assert!(is_authorized("/status", Some("key"), Some("Bearer key")));
    assert!(!is_authorized("/status", Some("key"), None));
    assert!(!is_authorized("/status", Some("key"), Some("key")));
    assert!(!is_authorized("/status", Some("key"), Some("Bearer kez")));
    assert!(!is_authorized("/status", Some("key"), Some("Bearer keys")));
}

#[test]
fn stealth_hides_inner_paths() {
    let hidden = [
        "/vision/perception",
        "/vision/inventory",
        "/fsm/debug",
        "/combat/events",
        "/dispatch/stats",
        "/cavebot/status",
    ];
    for path in hidden {
        assert!(is_hidden(true, path), "{}", path);
        assert!(!is_hidden(false, path), "{}", path);
    }
    assert!(!is_hidden(true, "/status"));
    assert!(!is_hidden(true, "/health"));
}

#[test]
fn tags_hold_only_plain_characters() {
    assert_eq!(sanitize_tag("abyssal depth/7_a-b"), "abyssaldepth7_a-b");
    assert_eq!(sanitize_tag("ñandú"), "and");
    assert_eq!(sanitize_tag(&"x".repeat(100)).len(), 64);
}

fn resolved(parts: &[&str], file_len: Option<u64>) -> ResolvedPath {
    ResolvedPath {
        shown: format!("/{}", parts.join("/")),
        parts: parts.iter().map(|p| p.to_string()).collect(),
        file_len,
    }
}

#[test]
fn v003_validate_load_path_rejects_escape_via_parent_dir() {
    let dir = resolved(&["bot", "assets", "cavebot"], None);
    let bad = "../../Cargo.toml";
    let result = validate_load_path(bad, Ok(resolved(&["bot", "Cargo.toml"], Some(10))), &dir);
    assert!(result.unwrap_err().contains("escapa"));
    let result = validate_load_path(bad, Err("not found".to_string()), &dir);
    assert_eq!(result.unwrap_err(), "path '../../Cargo.toml' no resolvable: not found");
}

#[test]
fn v003_validate_load_path_accepts_file_inside_whitelist() {
    let dir = resolved(&["tmp", "v003"], None);
    let path = resolved(&["tmp", "v003", "ok.toml"], Some(10));
    assert_eq!(validate_load_path("ok.toml", Ok(path), &dir).unwrap(), "/tmp/v003/ok.toml");
}

#[test]
fn v005_validate_load_path_rejects_oversized_file() {
    let dir = resolved(&["tmp", "v005"], None);
    let path = resolved(&["tmp", "v005", "huge.toml"], Some(2 * 1024 * 1024));
    let msg = validate_load_path("huge.toml", Ok(path), &dir).unwrap_err();
    assert!(msg.contains("excede el límite"), "{}", msg);
    let edge = resolved(&["tmp", "v005", "edge.toml"], Some(MAX_LOAD_FILE_BYTES));
    assert!(validate_load_path("edge.toml", Ok(edge), &dir).is_ok());
}

#[test]
fn v005_validate_load_path_accepts_small_file() {
    let dir = resolved(&["tmp", "v005"], None);
    let path = resolved(&["tmp", "v005", "normal.toml"], Some(8 * 1024));
    assert!(validate_load_path("normal.toml", Ok(path), &dir).is_ok());
}

#[test]
fn requests_become_commands_or_refusals() {
    let ok = request_waypoints(Ok("a.toml".to_string()), true);
    assert!(matches!(ok, Ok(LoopCommand::LoadWaypoints { enabled: true, .. })));
    let no = request_cavebot(Err("bad".to_string()), true).unwrap_err();
    assert!(!no.ok);
    assert_eq!(no.message, "path rejected: bad");
    let config = request_reload(None);
    assert!(matches!(config, Ok(LoopCommand::ReloadScripts { path: None })));
    let ack = send_cmd("Pause", None);
    assert!(ack.ok);
    assert_eq!(ack.message, "queued Pause");
    let ack = send_cmd("Pause", Some("closed".to_string()));
    assert!(!ack.ok);
    assert_eq!(ack.message, "channel error: closed");
    let ack = ack_load("LoadWaypoints", "a.toml", false, None);
    assert_eq!(ack.message, "queued LoadWaypoints path='a.toml' enabled=false");
    assert_eq!(ack_reload(None, None).message, "queued ReloadScripts path=<config>");
    let ack = ack_dataset("d", 15, "t", None);
    assert_eq!(ack.message, "queued StartDatasetCapture dir='d' interval=15 tag='t'");
}

#[test]
fn a_dataset_needs_a_tag_of_plain_characters() {
    let no = request_dataset(Ok("d".to_string()), None, Some("/ /".to_string()));
    assert!(no.is_err());
    let ok = request_dataset(Ok("d".to_string()), Some(7), Some("a b".to_string())).unwrap();
    match ok {
        LoopCommand::StartDatasetCapture { tag, interval, .. } => {
            assert_eq!(tag, "ab");
            assert_eq!(interval, 7);
        }
        other => panic!("got {:?}", other),
    }
}

#[test]
fn metrics_are_recorded_to_safe_paths_only() {
    assert_eq!(
        request_metrics_recording(None, None),
        ("session.metrics.jsonl".to_string(), 30, true)
    );
    let (path, flush, safe) = request_metrics_recording(Some("a b".to_string()), Some(0));
    assert_eq!((path.as_str(), flush, safe), ("a b", 1, false));
}

#[test]
fn keys_are_tested_only_while_paused() {
    let keys = KeyMap {
        names: vec![KeyName { name: "F1".to_string(), code: 0x3A }],
        chars: vec![],
    };
    assert_eq!(request_test_key(true, "F1", &keys), Ok(0x3A));
    assert!(request_test_key(false, "F1", &keys).is_err());
    assert_eq!(
        request_test_key(true, "F99", &keys),
        Err("keycode parse error: F99".to_string())
    );
}

#[test]
fn counts_are_added_up() {
    assert_eq!(total_count(&vec![1, 2, 3]), 6);
    assert_eq!(total_count(&vec![u64::MAX, 5]), u64::MAX);
}

#[test]
fn metrics_are_shown_as_text() {
    let g = GameState::default();
    let text = render_metrics(&g, false, &HealthStatus::default(), &MetricsRegistry::new());
    assert!(text.contains("# HELP tibia_bot_ticks_total"));
    assert!(text.contains("# TYPE tibia_bot_ticks_total counter"));
    assert!(text.contains("tibia_bot_ticks_total 0"));
    assert!(text.contains("tibia_bot_has_frame 0"));
    assert!(text.contains("tibia_bot_is_paused"));
    assert!(text.contains("tibia_bot_fsm_state"));
    assert!(text.ends_with('\n'));
}

#[test]
fn labels_hold_only_safe_characters() {
    assert_eq!(sanitize_label("vip potion!\"x", false), "vip_potion__x");
    assert_eq!(sanitize_label("a:b", false), "a_b");
    assert_eq!(sanitize_label("a:b", true), "a:b");
}

fn checkered(width: u32, height: u32) -> Frame {
    let mut data = Vec::new();
    for y in 0..height {
        for x in 0..width {
            let v = (x * 7 + y * 13) as u8;
            data.extend([v, v.wrapping_add(1), v.wrapping_add(2), 255]);
        }
    }
    Frame { width, height, data }
}

#[test]
fn a_picture_is_read_back_as_it_was_written() {
    let frame = checkered(12, 9);
    let png = grab(&frame).unwrap();
    assert_eq!(&png[1..4], b"PNG");
    let back = request_inject_frame(&png).unwrap();
    assert_eq!((back.width, back.height), (12, 9));
    assert_eq!(back.data, frame.data);
}

#[test]
fn broken_pictures_are_refused() {
    assert_eq!(
        request_inject_frame(b"").unwrap_err(),
        "body vacío — se esperaba un PNG"
    );
    assert!(request_inject_frame(b"nothing").unwrap_err().starts_with("PNG inválido: "));
    let mut frame = checkered(4, 4);
    frame.data.pop();
    assert!(matches!(grab(&frame), Err(GrabError::BadFrame)));
}

#[test]
fn anchors_are_outlined_in_magenta() {
    let frame = Frame { width: 20, height: 10, data: vec![0; 800] };
    let regions = Regions {
        hp_bar: None,
        mana_bar: None,
        battle_list: None,
        minimap: None,
        status_icons: None,
        game_viewport: None,
        anchors: vec![RoiDef { x: 3, y: 1, w: 14, h: 8 }],
    };
    let back = request_inject_frame(&grab_anchors(&frame, &regions).unwrap()).unwrap();
    let pixel = |x: usize, y: usize| back.data[4 * (y * 20 + x)..4 * (y * 20 + x) + 3].to_vec();
    assert_eq!(pixel(3, 1), vec![255, 0, 255]);
    assert_eq!(pixel(16, 8), vec![255, 0, 255]);
    assert_eq!(pixel(9, 5), vec![0, 0, 0]);
    assert_eq!(pixel(0, 0), vec![0, 0, 0]);
}

#[test]
fn regions_are_clipped_to_the_picture() {
    let roi = RoiDef { x: 15, y: 5, w: 10, h: 10 };
    assert_eq!(clip(roi, 20, 10), RoiDef { x: 15, y: 5, w: 5, h: 5 });
    let outside = RoiDef { x: 100, y: 100, w: 5, h: 5 };
    assert_eq!(clip(outside, 20, 10), RoiDef { x: 19, y: 9, w: 1, h: 1 });
}

#[test]
fn enlarging_repeats_every_pixel() {
    let big = enlarge(&checkered(3, 2), 2);
    assert_eq!((big.width, big.height), (6, 4));
    assert_eq!(big.data[0..4], big.data[4..8]);
    assert_eq!(big.data[0..24], big.data[24..48]);
    assert_eq!(big.data[8], 7);
}

#[test]
fn the_battle_list_is_shown_enlarged() {
    let frame = checkered(40, 30);
    let shown = battle_picture(&frame, Some(RoiDef { x: 10, y: 20, w: 4, h: 3 }));
    assert_eq!((shown.width, shown.height), (12, 9));
    assert_eq!(shown.data[0], (10 * 7 + 20 * 13) as u8);
}

#[test]
fn without_a_battle_list_the_side_of_the_screen_is_shown() {
    let frame = Frame { width: 1_920, height: 500, data: vec![] };
    let shown = battle_picture(&frame, None);
    assert_eq!((shown.width, shown.height), (690, 1_200));
}

#[test]
fn sparkles_are_marked() {
    let frame = checkered(4, 4);
    let area = RoiDef { x: 0, y: 0, w: 2, h: 1 };
    let shown = loot_picture(&frame, area, &[true, false]);
    assert_eq!((shown.width, shown.height), (6, 3));
    assert_ne!(shown.data[0..4], shown.data[12..16]);
}

#[test]
fn slots_come_from_the_first_source_there_is() {
    let one = RoiDef { x: 1, y: 1, w: 1, h: 1 };
    let two = RoiDef { x: 2, y: 2, w: 2, h: 2 };
    assert_eq!(inventory_slots(Some(vec![one]), Some(vec![two]), vec![]), vec![one]);
    assert_eq!(inventory_slots(None, Some(vec![two]), vec![one]), vec![two]);
    assert_eq!(inventory_slots(None, None, vec![one]), vec![one]);
}

#[test]
fn brightness_weighs_the_colours() {
    let frame = Frame { width: 2, height: 1, data: vec![255, 255, 255, 255, 100, 50, 200, 255] };
    let all = RoiDef { x: 0, y: 0, w: 2, h: 1 };
    let gray = gray_of(&frame, all).unwrap();
    assert_eq!(gray.data, vec![255, 82]);
    assert!(gray_of(&frame, RoiDef { x: 0, y: 0, w: 3, h: 1 }).is_none());
}

#[test]
fn the_first_of_the_best_scores_wins() {
    let area = RoiDef { x: 10, y: 20, w: 4, h: 3 };
    let m = best_match(&[9, 4, 9, 4, 9, 9], area, 2, 2);
    assert_eq!((m.top_left_x, m.top_left_y), (11, 20));
    assert_eq!((m.center_x, m.center_y), (12, 21));
    assert!(m.passed_threshold);
}

fn speckled(width: u32, height: u32) -> Frame {
    let mut data = Vec::new();
    let mut v: u32 = 12345;
    for _ in 0..width * height {
        v = v.wrapping_mul(1664525).wrapping_add(1013904223);
        let b = v.to_be_bytes();
        data.extend([b[0], b[1], b[2], 255]);
    }
    Frame { width, height, data }
}

#[test]
fn a_template_is_found_where_it_was_cut_out() {
    let frame = speckled(40, 30);
    let cut = extract_template(&frame, 20, 11, 8, 6).unwrap();
    assert_eq!(cut.region, RoiDef { x: 16, y: 8, w: 8, h: 6 });
    assert!(cut.luma_sum > 0);
    let m = match_now(&frame, true, None, &cut.png).unwrap();
    assert_eq!((m.template_w, m.template_h), (8, 6));
    assert_eq!((m.found.top_left_x, m.found.top_left_y), (16, 8));
    assert_eq!((m.found.center_x, m.found.center_y), (20, 11));
    assert_eq!(m.found.score_bits, 0);
    assert!(m.found.passed_threshold);
    let near = RoiDef { x: 10, y: 5, w: 20, h: 12 };
    let m = match_now(&frame, true, Some(near), &cut.png).unwrap();
    assert_eq!(m.area, near);
    assert_eq!((m.found.top_left_x, m.found.top_left_y), (16, 8));
}

#[test]
fn templates_that_do_not_fit_are_refused() {
    let frame = speckled(40, 30);
    let cut = extract_template(&frame, 20, 11, 8, 6).unwrap();
    let tight = RoiDef { x: 0, y: 0, w: 7, h: 6 };
    match match_now(&frame, true, Some(tight), &cut.png) {
        Err(MatchError::Area(text)) => assert_eq!(text, "search_area (7x6) < template (8x6)"),
        other => panic!("got {:?}", other),
    }
    assert!(matches!(match_now(&frame, false, None, b"x"), Err(MatchError::Template(_))));
    let far = RoiDef { x: 30, y: 25, w: 20, h: 10 };
    let lost = match_now(&frame, true, Some(far), &cut.png);
    assert!(matches!(lost, Err(MatchError::Bounds)));
    match extract_template(&frame, 2, 11, 8, 6) {
        Err(ExtractError::Outside(text)) => {
            assert_eq!(text, "Region (-2,8,8,6) fuera del frame 40x30")
        }
        other => panic!("got {:?}", other),
    }
    assert!(matches!(extract_template(&frame, 5, 5, 0, 0), Err(ExtractError::Encode(_))));
    assert!(template_region(36, 27, 8, 6, 40, 30).is_ok());
    assert!(template_region(37, 27, 8, 6, 40, 30).is_err());
}
