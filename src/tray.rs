//! Decisions of the tray front-ends that start, pause, resume and stop the
//! recorder: the command they run, icon sources, the tooltip, the status
//! read back, and the action a click or hotkey asks for.
use vstd::prelude::*;
use crate::keyboard::views;
use crate::strings::{
    push_char, contains, contains_text, occurs_at, starts_with_text, utf8_len, utf8_byte_len,
};

verus! {

/// The recorder's state as the tray shows it.
#[derive(Clone, Copy, Debug, PartialEq, Eq, Structural)]
pub enum RecorderStatus {
    Running,
    Paused,
    Stopped,
}

/// Capture modes of the full tray.
#[derive(Clone, Copy, Debug, PartialEq, Eq, Structural)]
pub enum Mode {
    Full,
    Mid,
    Low,
}

/// What the tray is asked to do.
#[derive(Clone, Copy, Debug, PartialEq, Eq, Structural)]
pub enum TrayAction {
    Start,
    StartInMode(Mode),
    Stop,
    Pause,
    Resume,
    SetMode(Mode),
    Exit,
}

/// How the recorder is invoked: the program and the arguments that precede
/// the action.
#[derive(Clone, Debug)]
pub struct RecorderCommand {
    pub exe: String,
    pub args_prefix: Vec<String>,
}

/// The configured recorder program with its arguments; else one found next
/// to the tools (`found_exe`); else a build-and-run of the recorder.
pub fn build_command(
    recorder_exe: Option<String>,
    recorder_args: Option<Vec<String>>,
    found_exe: Option<String>,
) -> (r: RecorderCommand)
    ensures
        recorder_exe is Some ==> r.exe@ == recorder_exe->Some_0@ && views(r.args_prefix@) == (
        match recorder_args {
            Some(a) => views(a@),
            None => Seq::empty(),
        }),
        recorder_exe is None && found_exe is Some ==> r.exe@ == found_exe->Some_0@
            && r.args_prefix@.len() == 0,
        recorder_exe is None && found_exe is None ==> r.exe@ == "cargo"@ && views(r.args_prefix@)
            == seq![
            "run"@,
            "--manifest-path"@,
            "tools\\timestone_recorder\\Cargo.toml"@,
            "--"@,
        ],
{
    if let Some(exe) = recorder_exe {
        let args_prefix = match recorder_args {
            Some(a) => a,
            None => Vec::new(),
        };
        assert(views(Seq::<String>::empty()) =~= Seq::<Seq<char>>::empty());
        return RecorderCommand { exe, args_prefix };
    }
    if let Some(exe) = found_exe {
        return RecorderCommand { exe, args_prefix: Vec::new() };
    }
    let mut args_prefix: Vec<String> = Vec::new();
    args_prefix.push(String::from_str("run"));
    args_prefix.push(String::from_str("--manifest-path"));
    args_prefix.push(String::from_str("tools\\timestone_recorder\\Cargo.toml"));
    args_prefix.push(String::from_str("--"));
    assert(views(args_prefix@) =~= seq![
        "run"@,
        "--manifest-path"@,
        "tools\\timestone_recorder\\Cargo.toml"@,
        "--"@,
    ]);
    RecorderCommand { exe: String::from_str("cargo"), args_prefix }
}

/// Where an icon comes from.
#[derive(Clone, Debug)]
pub enum IconSource {
    /// An http(s) address to download and cache.
    Download(String),
    /// A file path.
    File(String),
}

/// A Windows absolute path: a drive letter, a colon and a separator, or a
/// UNC path starting with two backslashes.
pub open spec fn is_absolute(p: Seq<char>) -> bool {
    ||| (p.len() >= 3 && (('A' <= p[0] && p[0] <= 'Z') || ('a' <= p[0] && p[0] <= 'z')) && p[1]
        == ':' && (p[2] == '\\' || p[2] == '/'))
    ||| (p.len() >= 2 && p[0] == '\\' && p[1] == '\\')
}

/// The path of `input` relative to `base_dir`.
pub open spec fn joined_path(base_dir: Seq<char>, input: Seq<char>) -> Seq<char> {
    if base_dir.len() == 0 || base_dir.last() == '\\' || base_dir.last() == '/' {
        base_dir + input
    } else {
        base_dir + seq!['\\'] + input
    }
}

/// An http(s) address is downloaded; an absolute path is used as it is; a
/// relative one is taken relative to the data directory.
pub fn resolve_icon_path(base_dir: &str, input: &str) -> (r: IconSource)
    ensures
        occurs_at(input@, "http://"@, 0) || occurs_at(input@, "https://"@, 0) ==> (r matches IconSource::Download(u) && u@ == input@),
        !(occurs_at(input@, "http://"@, 0) || occurs_at(input@, "https://"@, 0)) ==> (r matches IconSource::File(p) && p@ == (if is_absolute(input@) {
            input@
        } else {
            joined_path(base_dir@, input@)
        })),
{
    if starts_with_text(input, "http://") || starts_with_text(input, "https://") {
        return IconSource::Download(input.to_owned());
    }
    let n = input.unicode_len();
    let absolute = (n >= 3 && {
        let c0 = input.get_char(0);
        let c2 = input.get_char(2);
        (('A' <= c0 && c0 <= 'Z') || ('a' <= c0 && c0 <= 'z')) && input.get_char(1) == ':' && (c2
            == '\\' || c2 == '/')
    }) || (n >= 2 && input.get_char(0) == '\\' && input.get_char(1) == '\\');
    if absolute {
        return IconSource::File(input.to_owned());
    }
    let mut path = base_dir.to_owned();
    let m = base_dir.unicode_len();
    if !(m == 0 || base_dir.get_char(m - 1) == '\\' || base_dir.get_char(m - 1) == '/') {
        push_char(&mut path, '\\');
    }
    path.append(input);
    IconSource::File(path)
}

/// A tooltip of at most `max_len` bytes as the shell stores it: a longer
/// one keeps its first `max_len - 1` characters and ends with an ellipsis.
pub fn truncate_tooltip(value: &str, max_len: usize) -> (r: String)
    ensures
        utf8_len(value@) <= max_len ==> r@ == value@,
        utf8_len(value@) > max_len ==> r@ == value@.subrange(
            0,
            if max_len == 0 {
                0
            } else if (max_len - 1) as int > value@.len() {
                value@.len() as int
            } else {
                max_len - 1
            },
        ).push('\u{2026}'),
{
    if utf8_byte_len(value) <= max_len as u128 {
        return value.to_owned();
    }
    let n = value.unicode_len();
    let keep: usize = if max_len == 0 {
        0
    } else if max_len - 1 > n {
        n
    } else {
        max_len - 1
    };
    let mut out = value.substring_char(0, keep).to_owned();
    push_char(&mut out, '\u{2026}');
    out
}

/// The status that the recorder's `status` command printed.
pub fn get_status(output: &str) -> (r: RecorderStatus)
    ensures
        r == (if contains(output@, "Recorder status: paused"@) {
            RecorderStatus::Paused
        } else if contains(output@, "Recorder status: running"@) {
            RecorderStatus::Running
        } else {
            RecorderStatus::Stopped
        }),
{
    if contains_text(output, "Recorder status: paused") {
        RecorderStatus::Paused
    } else if contains_text(output, "Recorder status: running") {
        RecorderStatus::Running
    } else {
        RecorderStatus::Stopped
    }
}

pub const HOTKEY_F13: i32 = 1;
pub const HOTKEY_SHIFT_F13: i32 = 2;
pub const HOTKEY_ALT_F13: i32 = 3;
pub const HOTKEY_F14: i32 = 4;
pub const HOTKEY_SHIFT_F14: i32 = 5;
pub const HOTKEY_ALT_F14: i32 = 6;

/// What the tray knows of the recorder and of itself.
#[derive(Clone, Copy, Debug, PartialEq, Eq, Structural)]
pub struct TrayState {
    pub status: RecorderStatus,
    /// An action is in progress; further ones are ignored.
    pub busy: bool,
    pub mode: Mode,
}

impl TrayState {
    /// The action of a mode hotkey for `target`.
    pub open spec fn mode_action(self, target: Mode) -> TrayAction {
        match self.status {
            RecorderStatus::Stopped => TrayAction::StartInMode(target),
            RecorderStatus::Running => if self.mode == target {
                TrayAction::Pause
            } else {
                TrayAction::SetMode(target)
            },
            RecorderStatus::Paused => if self.mode == target {
                TrayAction::Resume
            } else {
                TrayAction::SetMode(target)
            },
        }
    }

    /// The action of a start hotkey for `target`.
    pub open spec fn start_action(self, target: Mode) -> TrayAction {
        match self.status {
            RecorderStatus::Stopped => TrayAction::StartInMode(target),
            _ => TrayAction::Stop,
        }
    }

    /// Records the status read from the control files; returns whether it
    /// changed, in which case the icon is to be refreshed.
    pub fn update_status(&mut self, polled: RecorderStatus) -> (changed: bool)
        ensures
            changed == (polled != old(self).status),
            final(self).status == polled,
            final(self).busy == old(self).busy,
            final(self).mode == old(self).mode,
    {
        let changed = polled != self.status;
        self.status = polled;
        changed
    }

    /// A left click starts a stopped recorder, pauses a running one and
    /// resumes a paused one; nothing while busy.
    pub fn handle_left_click(&self) -> (r: Option<TrayAction>)
        ensures
            self.busy ==> r is None,
            !self.busy ==> r == Some(
                match self.status {
                    RecorderStatus::Stopped => TrayAction::Start,
                    RecorderStatus::Running => TrayAction::Pause,
                    RecorderStatus::Paused => TrayAction::Resume,
                },
            ),
    {
        if self.busy {
            return None;
        }
        Some(
            match self.status {
                RecorderStatus::Stopped => TrayAction::Start,
                RecorderStatus::Running => TrayAction::Pause,
                RecorderStatus::Paused => TrayAction::Resume,
            },
        )
    }

    /// A mode hotkey: start in that mode when stopped; in the current mode
    /// toggle pause; in another mode switch to it.
    pub fn action_for_mode_hotkey(&self, target: Mode) -> (r: TrayAction)
        ensures
            r == self.mode_action(target),
    {
        match self.status {
            RecorderStatus::Stopped => TrayAction::StartInMode(target),
            RecorderStatus::Running => if self.mode == target {
                TrayAction::Pause
            } else {
                TrayAction::SetMode(target)
            },
            RecorderStatus::Paused => if self.mode == target {
                TrayAction::Resume
            } else {
                TrayAction::SetMode(target)
            },
        }
    }

    /// A start hotkey: start in that mode when stopped, stop otherwise.
    pub fn action_for_start_hotkey(&self, target: Mode) -> (r: TrayAction)
        ensures
            r == self.start_action(target),
    {
        match self.status {
            RecorderStatus::Stopped => TrayAction::StartInMode(target),
            _ => TrayAction::Stop,
        }
    }

    /// F13 with no modifier, Shift or Alt selects the full, low or mid mode;
    /// F14 the same for starting and stopping. Nothing while busy or for an
    /// unknown hotkey.
    pub fn handle_hotkey(&self, id: i32) -> (r: Option<TrayAction>)
        ensures
            self.busy || id < HOTKEY_F13 || id > HOTKEY_ALT_F14 ==> r is None,
            !self.busy && id == HOTKEY_F13 ==> r == Some(self.mode_action(Mode::Full)),
            !self.busy && id == HOTKEY_SHIFT_F13 ==> r == Some(
                self.mode_action(Mode::Low),
            ),
            !self.busy && id == HOTKEY_ALT_F13 ==> r == Some(self.mode_action(Mode::Mid)),
            !self.busy && id == HOTKEY_F14 ==> r == Some(self.start_action(Mode::Full)),
            !self.busy && id == HOTKEY_SHIFT_F14 ==> r == Some(
                self.start_action(Mode::Low),
            ),
            !self.busy && id == HOTKEY_ALT_F14 ==> r == Some(
                self.start_action(Mode::Mid),
            ),
    {
        if self.busy {
            return None;
        }
        if id == HOTKEY_F13 {
            Some(self.action_for_mode_hotkey(Mode::Full))
        } else if id == HOTKEY_SHIFT_F13 {
            Some(self.action_for_mode_hotkey(Mode::Low))
        } else if id == HOTKEY_ALT_F13 {
            Some(self.action_for_mode_hotkey(Mode::Mid))
        } else if id == HOTKEY_F14 {
            Some(self.action_for_start_hotkey(Mode::Full))
        } else if id == HOTKEY_SHIFT_F14 {
            Some(self.action_for_start_hotkey(Mode::Low))
        } else if id == HOTKEY_ALT_F14 {
            Some(self.action_for_start_hotkey(Mode::Mid))
        } else {
            None
        }
    }
}

} // verus!
