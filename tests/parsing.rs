use timestone::args::{parse_arg, parse_arg_string};
use timestone::clipboard::{bmp_file_header, icon_info_header, parse_dib_info, truncate_text, DibError};
use timestone::config::{
    apply_overrides, load_config, normalize_config, normalize_process_list, parse_mouse_click_mode,
    parse_raw_keys_mode, parse_start_args, CliOverrides, RecorderConfig,
};
use timestone::control::{resolve_video_path, VideoFile, lock_contents, parse_lock_pid, pick_latest_video, status_from_files, ControlStatus};
use timestone::keyboard::{is_modifier_key, vk_to_name, RawKeysMode};
use timestone::pointer::MouseClickMode;
use timestone::privacy::{normalize_process_name, FocusInfo, PrivacyPolicy};
use timestone::recorder::prepare_image;
use timestone::strings::{parse_i32, parse_u64, to_wide, trim_str};

fn strings(v: &[&str]) -> Vec<String> {
    v.iter().map(|s| s.to_string()).collect()
}

#[test]
fn start_args_are_parsed() {
    let o = parse_start_args(&strings(&[
        "--config", "c.json", "--no-safe-text", "--raw-keys", "--mouse-hz", "0", "--snapshot-hz",
        "x", "--obs-dir", "D:\\vids", "--bogus",
    ]));
    assert_eq!(o.config_path.as_deref(), Some("c.json"));
    assert_eq!(o.safe_text_only, Some(false));
    assert_eq!(o.capture_raw_keys, Some(true));
    assert_eq!(o.mouse_hz, Some(1));
    assert_eq!(o.snapshot_hz, None);
    assert_eq!(o.obs_video_dir.as_deref(), Some("D:\\vids"));
    assert_eq!(o.obs_video_path, None);
    let trailing = parse_start_args(&strings(&["--safe-text", "--obs-video"]));
    assert_eq!(trailing.safe_text_only, Some(true));
    assert_eq!(trailing.obs_video_path, None);
}

#[test]
fn config_defaults_overrides_and_normalisation() {
    let d = RecorderConfig::default();
    assert_eq!(d.mouse_hz, 30);
    assert_eq!(d.clipboard_dedupe_window_ms, 2000);
    assert_eq!(d.blocklist_processes, strings(&["1password.exe", "keepass.exe", "bitwarden.exe"]));
    let mut c = RecorderConfig::default();
    c.mouse_hz = 0;
    c.clipboard_poll_ms = 10;
    c.text_flush_ms = 100;
    c.max_text_len = 3;
    c.obs_video_path = Some("   ".to_string());
    c.allowlist_processes = strings(&["  Code.EXE ", "", "  "]);
    let n = normalize_config(c);
    assert_eq!(n.mouse_hz, 1);
    assert_eq!(n.clipboard_poll_ms, 50);
    assert_eq!(n.text_flush_ms, 250);
    assert_eq!(n.max_text_len, 16);
    assert_eq!(n.obs_video_path, None);
    assert_eq!(n.allowlist_processes, strings(&["code.exe"]));

    let mut o = CliOverrides::new();
    o.mouse_hz = Some(60);
    o.safe_text_only = Some(false);
    let mut c = RecorderConfig::default();
    apply_overrides(&mut c, &o);
    assert_eq!(c.mouse_hz, 60);
    assert!(!c.safe_text_only);
    assert_eq!(c.snapshot_hz, 1);
    let loaded = load_config(RecorderConfig::default(), &o);
    assert_eq!(loaded.mouse_hz, 60);
}

#[test]
fn modes_and_process_lists() {
    assert_eq!(parse_raw_keys_mode(" BOTH "), RawKeysMode::Both);
    assert_eq!(parse_raw_keys_mode("Up"), RawKeysMode::Up);
    assert_eq!(parse_raw_keys_mode("sideways"), RawKeysMode::Down);
    assert_eq!(parse_mouse_click_mode("UP"), MouseClickMode::Up);
    assert_eq!(parse_mouse_click_mode(" up"), MouseClickMode::Down);
    assert_eq!(parse_mouse_click_mode("Both"), MouseClickMode::Both);
    assert_eq!(
        normalize_process_list(strings(&[" A.exe", "b.EXE\t", ""])),
        strings(&["a.exe", "b.exe"])
    );
}

#[test]
fn process_names_and_privacy_gate() {
    assert_eq!(normalize_process_name("C:\\Program Files\\App\\My.EXE"), "my.exe");
    assert_eq!(normalize_process_name("/usr/bin/Tool"), "tool");
    assert_eq!(normalize_process_name("plain.exe"), "plain.exe");
    let p = PrivacyPolicy {
        safe_text_only: true,
        allowlist: strings(&["code.exe"]),
        blocklist: strings(&["keepass.exe"]),
    };
    let focus = Some(FocusInfo { has_keyboard_focus: true, is_password: false, is_text_control: true });
    assert!(p.should_capture_text(Some("C:\\x\\Code.exe"), focus));
    assert!(!p.should_capture_text(Some("C:\\x\\Code.exe"), None));
    assert!(!p.should_capture_text(Some("C:\\x\\other.exe"), focus));
    assert!(!p.should_capture_text(None, focus));
    assert!(!p.should_capture_clipboard(Some("D:\\KeePass.exe")));
    assert!(p.should_capture_clipboard(Some("code.exe")));
    let open = PrivacyPolicy { safe_text_only: false, allowlist: vec![], blocklist: vec![] };
    assert!(open.should_capture_text(None, None));
    assert!(open.should_capture_clipboard(None));
}

#[test]
fn key_names() {
    assert_eq!(vk_to_name(0x08), "Backspace");
    assert_eq!(vk_to_name(0x41), "A");
    assert_eq!(vk_to_name(0x35), "5");
    assert_eq!(vk_to_name(0x70), "F1");
    assert_eq!(vk_to_name(0x7b), "F12");
    assert_eq!(vk_to_name(0x05), "VK_05");
    assert_eq!(vk_to_name(0xba), "VK_BA");
    assert_eq!(vk_to_name(0x1ff), "VK_1FF");
    assert!(is_modifier_key(0xa0));
    assert!(!is_modifier_key(0x41));
}

#[test]
fn numbers_text_and_wide() {
    assert_eq!(parse_u64("+42"), Some(42));
    assert_eq!(parse_u64("18446744073709551615"), Some(u64::MAX));
    assert_eq!(parse_u64("18446744073709551616"), None);
    assert_eq!(parse_u64(""), None);
    assert_eq!(parse_u64("-1"), None);
    assert_eq!(parse_i32("-2147483648"), Some(i32::MIN));
    assert_eq!(parse_i32("2147483648"), None);
    assert_eq!(parse_i32("-"), None);
    assert_eq!(trim_str("\t a b \u{3000}"), "a b");
    assert_eq!(to_wide("a\u{1F600}"), vec![0x61, 0xd83d, 0xde00, 0]);
}

#[test]
fn named_arguments() {
    let args = strings(&["prog", "--x", "-15", "--w", "abc", "--title", "T", "--x", "7", "--h"]);
    assert_eq!(parse_arg(&args, "--x", 3), -15);
    assert_eq!(parse_arg(&args, "--w", 800), 800);
    assert_eq!(parse_arg(&args, "--h", 600), 600);
    assert_eq!(parse_arg(&args, "--y", 5), 5);
    assert_eq!(parse_arg_string(&args, "--title", "dflt"), "T");
    assert_eq!(parse_arg_string(&args, "--h", "dflt"), "dflt");
}

#[test]
fn truncation() {
    let t = truncate_text("héllo".to_string(), 2);
    assert_eq!(t.text, "hé");
    assert_eq!(t.length, 5);
    assert!(t.truncated);
    let u = truncate_text("hi".to_string(), 2);
    assert_eq!(u.text, "hi");
    assert!(!u.truncated);
}

fn dib(header_size: u32, width: i32, height: i32, bits: u16, size_image: u32, total: usize) -> Vec<u8> {
    let mut b = vec![0u8; total];
    b[0..4].copy_from_slice(&header_size.to_le_bytes());
    b[4..8].copy_from_slice(&width.to_le_bytes());
    b[8..12].copy_from_slice(&height.to_le_bytes());
    b[14..16].copy_from_slice(&bits.to_le_bytes());
    b[20..24].copy_from_slice(&size_image.to_le_bytes());
    b
}

#[test]
fn bitmap_headers() {
    assert_eq!(parse_dib_info(&[0u8; 39]), Err(DibError::TooShort));
    assert_eq!(parse_dib_info(&dib(12, 1, 1, 24, 0, 40)), Err(DibError::HeaderTooSmall));
    assert_eq!(parse_dib_info(&dib(124, 1, 1, 24, 0, 60)), Err(DibError::Truncated));
    let b = dib(40, 2, -2, 24, 0, 56);
    let info = parse_dib_info(&b).unwrap();
    assert_eq!(info.width, 2);
    assert_eq!(info.height, 2);
    assert_eq!(info.image_size, 16);
    let stated = parse_dib_info(&dib(40, 2, 2, 24, 10, 56)).unwrap();
    assert_eq!(stated.image_size, 10);
    let header = bmp_file_header(56, 16);
    assert_eq!(header, vec![0x42, 0x4d, 70, 0, 0, 0, 0, 0, 0, 0, 54, 0, 0, 0]);
    let prep = prepare_image(&b).unwrap();
    assert_eq!(prep.file_header, header);
    let prep2 = prepare_image(&dib(40, 2, -2, 24, 0, 57)).unwrap();
    assert_ne!(prep.hash, prep2.hash);
}

#[test]
fn lock_marker_round_trip() {
    let text = lock_contents("abc", 4242, -5, "2024-01-01T00:00:00+00:00");
    assert_eq!(
        text,
        "session_id=abc\npid=4242\nstart_wall_ms=-5\nstart_wall_iso=2024-01-01T00:00:00+00:00\n"
    );
    assert_eq!(parse_lock_pid(&text), Some(4242));
    assert_eq!(parse_lock_pid(" pid = 7 \r\npid=x\n"), Some(7));
    assert_eq!(parse_lock_pid("pid=1\npid=2"), Some(2));
    assert_eq!(parse_lock_pid("session_id=pid\n"), None);
    assert_eq!(parse_lock_pid(""), None);
}

#[test]
fn control_file_status() {
    assert_eq!(status_from_files(false, Some(true), true), ControlStatus::Stopped);
    assert_eq!(status_from_files(true, Some(false), true), ControlStatus::StaleLock);
    assert_eq!(status_from_files(true, None, true), ControlStatus::Paused);
    assert_eq!(status_from_files(true, Some(true), false), ControlStatus::Running);
}

#[test]
fn latest_video_is_picked() {
    let c = vec![
        (300, "b.mkv".to_string()),
        (500, "c.mp4".to_string()),
        (100, "a.mkv".to_string()),
        (500, "d.mov".to_string()),
    ];
    assert_eq!(pick_latest_video(&c).as_deref(), Some("d.mov"));
    assert_eq!(pick_latest_video(&vec![]), None);
}

#[test]
fn icon_header_layout() {
    let h = icon_info_header(32, 16);
    assert_eq!(h.len(), 40);
    assert_eq!(&h[0..4], &40u32.to_le_bytes());
    assert_eq!(&h[4..8], &32u32.to_le_bytes());
    assert_eq!(&h[8..12], &16u32.to_le_bytes());
    assert_eq!(&h[12..16], &[1, 0, 32, 0]);
    assert_eq!(&h[20..24], &(32u32 * 16 * 4).to_le_bytes());
    assert!(h[24..].iter().all(|b| *b == 0));
    let mut image = h.clone();
    image.extend(vec![0u8; 32 * 16 * 4]);
    let info = parse_dib_info(&image).unwrap();
    assert_eq!((info.width, info.height, info.image_size), (32, 16, 2048));
}

fn video(ms: i64, path: &str, ext: &str) -> VideoFile {
    VideoFile { modified_ms: ms, path: path.to_string(), extension: ext.to_string() }
}

#[test]
fn video_path_resolution() {
    let files = vec![
        video(100, "a.mkv", "mkv"),
        video(900, "notes.txt", "txt"),
        video(500, "b.MP4", "MP4"),
        video(300, "c.webm", "webm"),
    ];
    assert_eq!(resolve_video_path(&None, &files).as_deref(), Some("b.MP4"));
    assert_eq!(resolve_video_path(&Some("  ".to_string()), &files).as_deref(), Some("b.MP4"));
    assert_eq!(resolve_video_path(&Some("x.mkv".to_string()), &files).as_deref(), Some("x.mkv"));
    assert_eq!(resolve_video_path(&None, &vec![video(1, "n.txt", "txt")]), None);
}
