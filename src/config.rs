//! Recorder configuration: defaults, command-line overrides, and the
//! normalisation applied before use.
use vstd::prelude::*;
use crate::keyboard::{RawKeysMode, views};
use crate::pointer::MouseClickMode;
use crate::strings::{
    trim, trim_str, ascii_lower, to_ascii_lower, same_text, unsigned_parse, parse_u64,
};

verus! {

/// The recognised options of the configuration file.
#[derive(Clone, Debug)]
pub struct RecorderConfig {
    pub mouse_hz: u64,
    pub snapshot_hz: u64,
    pub emit_snapshots: bool,
    pub emit_mouse_move: bool,
    pub emit_mouse_click: bool,
    pub mouse_click_mode: String,
    pub emit_mouse_scroll: bool,
    pub capture_clipboard: bool,
    pub clipboard_poll_ms: u64,
    pub clipboard_debounce_ms: u64,
    pub clipboard_dedupe_window_ms: u64,
    pub window_poll_hz: u64,
    pub window_rect_debounce_ms: u64,
    pub capture_raw_keys: bool,
    pub raw_keys_mode: String,
    pub suppress_raw_keys_on_shortcut: bool,
    pub obs_video_path: Option<String>,
    pub obs_video_dir: Option<String>,
    pub safe_text_only: bool,
    pub allowlist_processes: Vec<String>,
    pub blocklist_processes: Vec<String>,
    pub text_flush_ms: u64,
    pub max_text_len: usize,
    pub text_snapshot_on_idle: bool,
}

impl Default for RecorderConfig {
    fn default() -> (r: Self)
        ensures
            r.mouse_hz == 30 && r.snapshot_hz == 1,
            !r.emit_snapshots && !r.emit_mouse_move && r.emit_mouse_click && !r.emit_mouse_scroll,
            r.mouse_click_mode@ == "down"@ && r.raw_keys_mode@ == "down"@,
            r.capture_clipboard && r.clipboard_poll_ms == 250 && r.clipboard_debounce_ms == 200
                && r.clipboard_dedupe_window_ms == 2000,
            r.window_poll_hz == 0 && r.window_rect_debounce_ms == 300,
            r.capture_raw_keys && r.suppress_raw_keys_on_shortcut,
            r.obs_video_path is None && r.obs_video_dir is None,
            r.safe_text_only,
            r.allowlist_processes@.len() == 0,
            views(r.blocklist_processes@) == seq![
                "1password.exe"@,
                "keepass.exe"@,
                "bitwarden.exe"@,
            ],
            r.text_flush_ms == 1500 && r.max_text_len == 2000,
            !r.text_snapshot_on_idle,
    {
        let mut blocklist: Vec<String> = Vec::new();
        blocklist.push(String::from_str("1password.exe"));
        blocklist.push(String::from_str("keepass.exe"));
        blocklist.push(String::from_str("bitwarden.exe"));
        assert(views(blocklist@) =~= seq!["1password.exe"@, "keepass.exe"@, "bitwarden.exe"@]);
        RecorderConfig {
            mouse_hz: 30,
            snapshot_hz: 1,
            emit_snapshots: false,
            emit_mouse_move: false,
            emit_mouse_click: true,
            mouse_click_mode: String::from_str("down"),
            emit_mouse_scroll: false,
            capture_clipboard: true,
            clipboard_poll_ms: 250,
            clipboard_debounce_ms: 200,
            clipboard_dedupe_window_ms: 2000,
            window_poll_hz: 0,
            window_rect_debounce_ms: 300,
            capture_raw_keys: true,
            raw_keys_mode: String::from_str("down"),
            suppress_raw_keys_on_shortcut: true,
            obs_video_path: None,
            obs_video_dir: None,
            safe_text_only: true,
            allowlist_processes: Vec::new(),
            blocklist_processes: blocklist,
            text_flush_ms: 1500,
            max_text_len: 2000,
            text_snapshot_on_idle: false,
        }
    }
}

/// Settings given on the command line, each overriding the file's.
#[derive(Clone, Debug)]
pub struct CliOverrides {
    pub config_path: Option<String>,
    pub mouse_hz: Option<u64>,
    pub snapshot_hz: Option<u64>,
    pub capture_raw_keys: Option<bool>,
    pub obs_video_path: Option<String>,
    pub obs_video_dir: Option<String>,
    pub safe_text_only: Option<bool>,
}

/// Mathematical model of `CliOverrides`.
pub struct OverridesView {
    pub config_path: Option<Seq<char>>,
    pub mouse_hz: Option<u64>,
    pub snapshot_hz: Option<u64>,
    pub capture_raw_keys: Option<bool>,
    pub obs_video_path: Option<Seq<char>>,
    pub obs_video_dir: Option<Seq<char>>,
    pub safe_text_only: Option<bool>,
}

pub open spec fn opt_view(o: Option<String>) -> Option<Seq<char>> {
    match o {
        Some(s) => Some(s@),
        None => None,
    }
}

impl View for CliOverrides {
    type V = OverridesView;

    open spec fn view(&self) -> OverridesView {
        OverridesView {
            config_path: opt_view(self.config_path),
            mouse_hz: self.mouse_hz,
            snapshot_hz: self.snapshot_hz,
            capture_raw_keys: self.capture_raw_keys,
            obs_video_path: opt_view(self.obs_video_path),
            obs_video_dir: opt_view(self.obs_video_dir),
            safe_text_only: self.safe_text_only,
        }
    }
}

impl CliOverrides {
    pub fn new() -> (r: CliOverrides)
        ensures
            r@ == OverridesView::none(),
    {
        CliOverrides {
            config_path: None,
            mouse_hz: None,
            snapshot_hz: None,
            capture_raw_keys: None,
            obs_video_path: None,
            obs_video_dir: None,
            safe_text_only: None,
        }
    }
}

/// A rate given on the command line: a `u64`, at least one.
pub open spec fn rate_arg(s: Seq<char>) -> Option<u64> {
    match unsigned_parse(s, u64::MAX as int) {
        Some(v) => Some(
            if v < 1 {
                1u64
            } else {
                v as u64
            },
        ),
        None => None,
    }
}

impl OverridesView {
    pub open spec fn none() -> OverridesView {
        OverridesView {
            config_path: None,
            mouse_hz: None,
            snapshot_hz: None,
            capture_raw_keys: None,
            obs_video_path: None,
            obs_video_dir: None,
            safe_text_only: None,
        }
    }
}

/// The overrides that the arguments from index `i` on add to `o`. A flag
/// that takes a value consumes the next argument; a rate that does not parse
/// is ignored; unknown arguments are skipped.
pub open spec fn parse_args_from(args: Seq<Seq<char>>, i: int, o: OverridesView) -> OverridesView
    decreases args.len() - i,
{
    if i < 0 || i >= args.len() {
        o
    } else {
        let a = args[i];
        let has_next = i + 1 < args.len();
        if a == "--config"@ {
            if has_next {
                parse_args_from(args, i + 2, OverridesView { config_path: Some(args[i + 1]), ..o })
            } else {
                o
            }
        } else if a == "--safe-text"@ {
            parse_args_from(args, i + 1, OverridesView { safe_text_only: Some(true), ..o })
        } else if a == "--no-safe-text"@ {
            parse_args_from(args, i + 1, OverridesView { safe_text_only: Some(false), ..o })
        } else if a == "--raw-keys"@ {
            parse_args_from(args, i + 1, OverridesView { capture_raw_keys: Some(true), ..o })
        } else if a == "--mouse-hz"@ {
            if has_next {
                parse_args_from(
                    args,
                    i + 2,
                    match rate_arg(args[i + 1]) {
                        Some(v) => OverridesView { mouse_hz: Some(v), ..o },
                        None => o,
                    },
                )
            } else {
                o
            }
        } else if a == "--snapshot-hz"@ {
            if has_next {
                parse_args_from(
                    args,
                    i + 2,
                    match rate_arg(args[i + 1]) {
                        Some(v) => OverridesView { snapshot_hz: Some(v), ..o },
                        None => o,
                    },
                )
            } else {
                o
            }
        } else if a == "--obs-video"@ {
            if has_next {
                parse_args_from(args, i + 2, OverridesView { obs_video_path: Some(args[i + 1]), ..o })
            } else {
                o
            }
        } else if a == "--obs-dir"@ {
            if has_next {
                parse_args_from(args, i + 2, OverridesView { obs_video_dir: Some(args[i + 1]), ..o })
            } else {
                o
            }
        } else {
            parse_args_from(args, i + 1, o)
        }
    }
}

fn rate_value(s: &str) -> (r: Option<u64>)
    ensures
        r == rate_arg(s@),
{
    match parse_u64(s) {
        Some(v) => Some(
            if v < 1 {
                1
            } else {
                v
            },
        ),
        None => None,
    }
}

/// The overrides given by the arguments that follow `start`.
pub fn parse_start_args(args: &Vec<String>) -> (r: CliOverrides)
    ensures
        r@ == parse_args_from(views(args@), 0, OverridesView::none()),
{
    let ghost a = views(args@);
    let mut o = CliOverrides::new();
    let n = args.len();
    let mut i: usize = 0;
    while i < n
        invariant
            n == args@.len(),
            a == views(args@),
            i <= n,
            parse_args_from(a, 0, OverridesView::none()) == parse_args_from(a, i as int, o@),
        decreases n - i,
    {
        let arg = args[i].as_str();
        let has_next = i + 1 < n;
        assert(a[i as int] == arg@);
        if same_text(arg, "--config") {
            if has_next {
                o.config_path = Some(args[i + 1].clone());
                i = i + 2;
            } else {
                i = n;
            }
        } else if same_text(arg, "--safe-text") {
            o.safe_text_only = Some(true);
            i = i + 1;
        } else if same_text(arg, "--no-safe-text") {
            o.safe_text_only = Some(false);
            i = i + 1;
        } else if same_text(arg, "--raw-keys") {
            o.capture_raw_keys = Some(true);
            i = i + 1;
        } else if same_text(arg, "--mouse-hz") {
            if has_next {
                if let Some(v) = rate_value(args[i + 1].as_str()) {
                    o.mouse_hz = Some(v);
                }
                i = i + 2;
            } else {
                i = n;
            }
        } else if same_text(arg, "--snapshot-hz") {
            if has_next {
                if let Some(v) = rate_value(args[i + 1].as_str()) {
                    o.snapshot_hz = Some(v);
                }
                i = i + 2;
            } else {
                i = n;
            }
        } else if same_text(arg, "--obs-video") {
            if has_next {
                o.obs_video_path = Some(args[i + 1].clone());
                i = i + 2;
            } else {
                i = n;
            }
        } else if same_text(arg, "--obs-dir") {
            if has_next {
                o.obs_video_dir = Some(args[i + 1].clone());
                i = i + 2;
            } else {
                i = n;
            }
        } else {
            i = i + 1;
        }
    }
    o
}

/// Applies the command-line overrides to a configuration.
#[verifier::rlimit(40)]
pub fn apply_overrides(config: &mut RecorderConfig, overrides: &CliOverrides)
    ensures
        final(config).mouse_hz == (match overrides.mouse_hz {
            Some(v) => v,
            None => old(config).mouse_hz,
        }),
        final(config).snapshot_hz == (match overrides.snapshot_hz {
            Some(v) => v,
            None => old(config).snapshot_hz,
        }),
        final(config).capture_raw_keys == (match overrides.capture_raw_keys {
            Some(v) => v,
            None => old(config).capture_raw_keys,
        }),
        opt_view(final(config).obs_video_path) == (match overrides.obs_video_path {
            Some(v) => Some(v@),
            None => opt_view(old(config).obs_video_path),
        }),
        opt_view(final(config).obs_video_dir) == (match overrides.obs_video_dir {
            Some(v) => Some(v@),
            None => opt_view(old(config).obs_video_dir),
        }),
        final(config).safe_text_only == (match overrides.safe_text_only {
            Some(v) => v,
            None => old(config).safe_text_only,
        }),
        final(config).same_except_overridable(*old(config)),
{
    if let Some(v) = overrides.mouse_hz {
        config.mouse_hz = v;
    }
    if let Some(v) = overrides.snapshot_hz {
        config.snapshot_hz = v;
    }
    if let Some(v) = overrides.capture_raw_keys {
        config.capture_raw_keys = v;
    }
    match &overrides.obs_video_path {
        Some(v) => {
            config.obs_video_path = Some(v.clone());
        },
        None => {},
    }
    match &overrides.obs_video_dir {
        Some(v) => {
            config.obs_video_dir = Some(v.clone());
        },
        None => {},
    }
    if let Some(v) = overrides.safe_text_only {
        config.safe_text_only = v;
    }
}

impl RecorderConfig {
    /// Equal in every field that no command-line override touches.
    pub open spec fn same_except_overridable(self, o: RecorderConfig) -> bool {
        &&& self.emit_snapshots == o.emit_snapshots
        &&& self.emit_mouse_move == o.emit_mouse_move
        &&& self.emit_mouse_click == o.emit_mouse_click
        &&& self.mouse_click_mode == o.mouse_click_mode
        &&& self.emit_mouse_scroll == o.emit_mouse_scroll
        &&& self.capture_clipboard == o.capture_clipboard
        &&& self.clipboard_poll_ms == o.clipboard_poll_ms
        &&& self.clipboard_debounce_ms == o.clipboard_debounce_ms
        &&& self.clipboard_dedupe_window_ms == o.clipboard_dedupe_window_ms
        &&& self.window_poll_hz == o.window_poll_hz
        &&& self.window_rect_debounce_ms == o.window_rect_debounce_ms
        &&& self.raw_keys_mode == o.raw_keys_mode
        &&& self.suppress_raw_keys_on_shortcut == o.suppress_raw_keys_on_shortcut
        &&& self.allowlist_processes == o.allowlist_processes
        &&& self.blocklist_processes == o.blocklist_processes
        &&& self.text_flush_ms == o.text_flush_ms
        &&& self.max_text_len == o.max_text_len
        &&& self.text_snapshot_on_idle == o.text_snapshot_on_idle
    }
}

/// The process list entries trimmed, lower-cased and without empty ones.
pub open spec fn normalized_list(s: Seq<Seq<char>>) -> Seq<Seq<char>>
    decreases s.len(),
{
    if s.len() == 0 {
        Seq::empty()
    } else if trim(s.last()).len() == 0 {
        normalized_list(s.drop_last())
    } else {
        normalized_list(s.drop_last()).push(ascii_lower(trim(s.last())))
    }
}

/// Trims each entry, lower-cases it (ASCII) and drops the empty ones.
pub fn normalize_process_list(list: Vec<String>) -> (r: Vec<String>)
    ensures
        views(r@) == normalized_list(views(list@)),
{
    let mut out: Vec<String> = Vec::new();
    let mut i: usize = 0;
    while i < list.len()
        invariant
            i <= list@.len(),
            views(out@) == normalized_list(views(list@.subrange(0, i as int))),
        decreases list@.len() - i,
    {
        let trimmed = trim_str(list[i].as_str());
        assert(views(list@.subrange(0, i + 1)).drop_last() =~= views(list@.subrange(0, i as int)));
        if trimmed.unicode_len() > 0 {
            out.push(to_ascii_lower(trimmed));
            assert(views(out@) =~= normalized_list(views(list@.subrange(0, i + 1))));
        }
        i = i + 1;
    }
    assert(list@.subrange(0, list@.len() as int) =~= list@);
    out
}

pub open spec fn keep_nonblank(p: Option<String>) -> Option<Seq<char>> {
    match p {
        Some(s) => if trim(s@).len() == 0 {
            None
        } else {
            Some(s@)
        },
        None => None,
    }
}

fn nonblank(p: Option<String>) -> (r: Option<String>)
    ensures
        opt_view(r) == keep_nonblank(p),
{
    match p {
        Some(s) => if trim_str(s.as_str()).unicode_len() == 0 {
            None
        } else {
            Some(s)
        },
        None => None,
    }
}

/// Clamps rates and intervals to their minimums, drops blank video paths
/// and normalises the process lists.
pub fn normalize_config(config: RecorderConfig) -> (r: RecorderConfig)
    ensures
        r.mouse_hz == if config.mouse_hz < 1 {
            1
        } else {
            config.mouse_hz
        },
        r.snapshot_hz == if config.snapshot_hz < 1 {
            1
        } else {
            config.snapshot_hz
        },
        r.clipboard_poll_ms == if config.clipboard_poll_ms < 50 {
            50
        } else {
            config.clipboard_poll_ms
        },
        r.clipboard_debounce_ms == if config.clipboard_debounce_ms < 50 {
            50
        } else {
            config.clipboard_debounce_ms
        },
        r.text_flush_ms == if config.text_flush_ms < 250 {
            250
        } else {
            config.text_flush_ms
        },
        r.max_text_len == if config.max_text_len < 16 {
            16
        } else {
            config.max_text_len
        },
        r.clipboard_dedupe_window_ms == config.clipboard_dedupe_window_ms,
        r.window_poll_hz == config.window_poll_hz,
        r.window_rect_debounce_ms == config.window_rect_debounce_ms,
        opt_view(r.obs_video_path) == keep_nonblank(config.obs_video_path),
        opt_view(r.obs_video_dir) == keep_nonblank(config.obs_video_dir),
        views(r.allowlist_processes@) == normalized_list(views(config.allowlist_processes@)),
        views(r.blocklist_processes@) == normalized_list(views(config.blocklist_processes@)),
        r.emit_snapshots == config.emit_snapshots && r.emit_mouse_move == config.emit_mouse_move
            && r.emit_mouse_click == config.emit_mouse_click && r.emit_mouse_scroll
            == config.emit_mouse_scroll && r.capture_clipboard == config.capture_clipboard
            && r.capture_raw_keys == config.capture_raw_keys && r.suppress_raw_keys_on_shortcut
            == config.suppress_raw_keys_on_shortcut && r.safe_text_only == config.safe_text_only
            && r.text_snapshot_on_idle == config.text_snapshot_on_idle,
        r.mouse_click_mode == config.mouse_click_mode && r.raw_keys_mode == config.raw_keys_mode,
{
    let RecorderConfig {
        mouse_hz,
        snapshot_hz,
        emit_snapshots,
        emit_mouse_move,
        emit_mouse_click,
        mouse_click_mode,
        emit_mouse_scroll,
        capture_clipboard,
        clipboard_poll_ms,
        clipboard_debounce_ms,
        clipboard_dedupe_window_ms,
        window_poll_hz,
        window_rect_debounce_ms,
        capture_raw_keys,
        raw_keys_mode,
        suppress_raw_keys_on_shortcut,
        obs_video_path,
        obs_video_dir,
        safe_text_only,
        allowlist_processes,
        blocklist_processes,
        text_flush_ms,
        max_text_len,
        text_snapshot_on_idle,
    } = config;
    RecorderConfig {
        mouse_hz: if mouse_hz < 1 {
            1
        } else {
            mouse_hz
        },
        snapshot_hz: if snapshot_hz < 1 {
            1
        } else {
            snapshot_hz
        },
        emit_snapshots,
        emit_mouse_move,
        emit_mouse_click,
        mouse_click_mode,
        emit_mouse_scroll,
        capture_clipboard,
        clipboard_poll_ms: if clipboard_poll_ms < 50 {
            50
        } else {
            clipboard_poll_ms
        },
        clipboard_debounce_ms: if clipboard_debounce_ms < 50 {
            50
        } else {
            clipboard_debounce_ms
        },
        clipboard_dedupe_window_ms,
        window_poll_hz,
        window_rect_debounce_ms,
        capture_raw_keys,
        raw_keys_mode,
        suppress_raw_keys_on_shortcut,
        obs_video_path: nonblank(obs_video_path),
        obs_video_dir: nonblank(obs_video_dir),
        safe_text_only,
        allowlist_processes: normalize_process_list(allowlist_processes),
        blocklist_processes: normalize_process_list(blocklist_processes),
        text_flush_ms: if text_flush_ms < 250 {
            250
        } else {
            text_flush_ms
        },
        max_text_len: if max_text_len < 16 {
            16
        } else {
            max_text_len
        },
        text_snapshot_on_idle,
    }
}

/// The effective configuration: the one read from the configuration file,
/// with the command-line overrides applied, then normalised.
pub fn load_config(file_config: RecorderConfig, overrides: &CliOverrides) -> (r: RecorderConfig)
    ensures
        r.mouse_hz == (match overrides.mouse_hz {
            Some(v) => if v < 1 {
                1
            } else {
                v
            },
            None => if file_config.mouse_hz < 1 {
                1
            } else {
                file_config.mouse_hz
            },
        }),
        r.safe_text_only == (match overrides.safe_text_only {
            Some(v) => v,
            None => file_config.safe_text_only,
        }),
        r.capture_raw_keys == (match overrides.capture_raw_keys {
            Some(v) => v,
            None => file_config.capture_raw_keys,
        }),
        opt_view(r.obs_video_path) == keep_nonblank(
            match overrides.obs_video_path {
                Some(v) => Some(v),
                None => file_config.obs_video_path,
            },
        ),
        views(r.blocklist_processes@) == normalized_list(views(file_config.blocklist_processes@)),
        views(r.allowlist_processes@) == normalized_list(views(file_config.allowlist_processes@)),
        r.text_flush_ms == if file_config.text_flush_ms < 250 {
            250
        } else {
            file_config.text_flush_ms
        },
{
    let mut config = file_config;
    apply_overrides(&mut config, overrides);
    proof {
        assert(opt_view(config.obs_video_path) == opt_view(
            match overrides.obs_video_path {
                Some(v) => Some(v),
                None => file_config.obs_video_path,
            },
        ));
    }
    normalize_config(config)
}

pub open spec fn raw_keys_mode_of(value: Seq<char>) -> RawKeysMode {
    if ascii_lower(trim(value)) == "up"@ {
        RawKeysMode::Up
    } else if ascii_lower(trim(value)) == "both"@ {
        RawKeysMode::Both
    } else {
        RawKeysMode::Down
    }
}

pub open spec fn click_mode_of(value: Seq<char>) -> MouseClickMode {
    if ascii_lower(value) == "up"@ {
        MouseClickMode::Up
    } else if ascii_lower(value) == "both"@ {
        MouseClickMode::Both
    } else {
        MouseClickMode::Down
    }
}

/// The raw-key mode named in the configuration; anything but "up" or
/// "both" (trimmed, any ASCII case) means key-down only.
pub fn parse_raw_keys_mode(value: &str) -> (r: RawKeysMode)
    ensures
        r == raw_keys_mode_of(value@),
{
    let lowered = to_ascii_lower(trim_str(value));
    if same_text(lowered.as_str(), "up") {
        RawKeysMode::Up
    } else if same_text(lowered.as_str(), "both") {
        RawKeysMode::Both
    } else {
        RawKeysMode::Down
    }
}

/// The click mode named in the configuration; anything but "up" or "both"
/// (any ASCII case) means presses only.
pub fn parse_mouse_click_mode(value: &str) -> (r: MouseClickMode)
    ensures
        r == click_mode_of(value@),
{
    let lowered = to_ascii_lower(value);
    if same_text(lowered.as_str(), "up") {
        MouseClickMode::Up
    } else if same_text(lowered.as_str(), "both") {
        MouseClickMode::Both
    } else {
        MouseClickMode::Down
    }
}

} // verus!
