//! The control plane: the lock marker that guards against a second
//! instance, and the status read from the control files.
use vstd::prelude::*;
use crate::strings::{
    decimal_of, digits_of, lemma_split_on_nonempty, parse_u32, push_char, push_decimal,
    push_signed_decimal, same_text, split_on, trim, trim_str, unsigned_parse, ascii_lower,
    to_ascii_lower,
};

verus! {

/// The lock marker: `key=value` lines for the session id, the process id
/// and the start time.
pub open spec fn lock_text(session_id: Seq<char>, pid: u32, start_wall_ms: i64, start_wall_iso: Seq<
    char,
>) -> Seq<char> {
    "session_id="@ + session_id + "\npid="@ + digits_of(pid as nat) + "\nstart_wall_ms="@
        + decimal_of(start_wall_ms as int) + "\nstart_wall_iso="@ + start_wall_iso + "\n"@
}

/// The contents of the lock marker.
pub fn lock_contents(session_id: &str, pid: u32, start_wall_ms: i64, start_wall_iso: &str) -> (r:
    String)
    ensures
        r@ == lock_text(session_id@, pid, start_wall_ms, start_wall_iso@),
{
    let mut out = String::new();
    out.append("session_id=");
    out.append(session_id);
    out.append("\npid=");
    push_decimal(&mut out, pid as u64);
    out.append("\nstart_wall_ms=");
    push_signed_decimal(&mut out, start_wall_ms);
    out.append("\nstart_wall_iso=");
    out.append(start_wall_iso);
    out.append("\n");
    out
}

/// The index of the first '=' in `s`, or its length when there is none.
pub open spec fn eq_index(s: Seq<char>) -> int
    decreases s.len(),
{
    if s.len() == 0 {
        0
    } else if s[0] == '=' {
        0
    } else {
        1 + eq_index(s.drop_first())
    }
}

proof fn lemma_eq_index(s: Seq<char>, i: int)
    requires
        0 <= i <= s.len(),
        forall|j: int| 0 <= j < i ==> s[j] != '=',
        i == s.len() || s[i] == '=',
    ensures
        eq_index(s) == i,
    decreases i,
{
    if i > 0 {
        let t = s.drop_first();
        assert forall|j: int| 0 <= j < i - 1 implies t[j] != '=' by {
            assert(t[j] == s[j + 1]);
        }
        if i < s.len() {
            assert(t[i - 1] == s[i]);
        }
        lemma_eq_index(t, i - 1);
    }
}

/// The process id a lock line gives: its key (before the first '=') and its
/// value (after it), both trimmed, must be "pid" and a `u32`.
pub open spec fn line_pid(line: Seq<char>) -> Option<int> {
    let k = eq_index(line);
    let key = trim(line.subrange(0, k));
    let value = if k < line.len() {
        trim(line.subrange(k + 1, line.len() as int))
    } else {
        Seq::empty()
    };
    if key == "pid"@ {
        unsigned_parse(value, u32::MAX as int)
    } else {
        None
    }
}

/// The process id of the last line that gives one.
pub open spec fn lines_pid(lines: Seq<Seq<char>>) -> Option<int>
    decreases lines.len(),
{
    if lines.len() == 0 {
        None
    } else {
        match line_pid(lines.last()) {
            Some(p) => Some(p),
            None => lines_pid(lines.drop_last()),
        }
    }
}

fn pid_of_line(line: &str) -> (r: Option<u32>)
    ensures
        match line_pid(line@) {
            Some(p) => r is Some && r->Some_0 == p,
            None => r is None,
        },
{
    let n = line.unicode_len();
    let mut k: usize = 0;
    while k < n && line.get_char(k) != '='
        invariant
            n == line@.len(),
            k <= n,
            forall|j: int| 0 <= j < k ==> line@[j] != '=',
        decreases n - k,
    {
        k = k + 1;
    }
    proof {
        lemma_eq_index(line@, k as int);
    }
    let key = trim_str(line.substring_char(0, k));
    if !same_text(key, "pid") {
        return None;
    }
    if k < n {
        let value = trim_str(line.substring_char(k + 1, n));
        parse_u32(value)
    } else {
        None
    }
}

/// The process id recorded in a lock marker: that of the last line whose
/// key is `pid` and whose value is a `u32`.
pub fn parse_lock_pid(contents: &str) -> (r: Option<u32>)
    ensures
        match lines_pid(split_on(contents@, '\n')) {
            Some(p) => r is Some && r->Some_0 == p,
            None => r is None,
        },
{
    let n = contents.unicode_len();
    let mut found: Option<u32> = None;
    let mut line = String::new();
    let mut i: usize = 0;
    proof {
        assert(contents@.subrange(0, 0) =~= Seq::<char>::empty());
        assert(split_on(Seq::<char>::empty(), '\n').drop_last() =~= Seq::<Seq<char>>::empty());
    }
    while i < n
        invariant
            n == contents@.len(),
            i <= n,
            split_on(contents@.subrange(0, i as int), '\n').len() >= 1,
            line@ == split_on(contents@.subrange(0, i as int), '\n').last(),
            match lines_pid(split_on(contents@.subrange(0, i as int), '\n').drop_last()) {
                Some(p) => found is Some && found->Some_0 == p,
                None => found is None,
            },
        decreases n - i,
    {
        let c = contents.get_char(i);
        let ghost pre = contents@.subrange(0, i as int);
        let ghost next = contents@.subrange(0, i + 1);
        assert(next.drop_last() =~= pre);
        proof {
            lemma_split_on_nonempty(next, '\n');
            lemma_split_on_nonempty(pre, '\n');
        }
        if c == '\n' {
            let p = pid_of_line(line.as_str());
            if p.is_some() {
                found = p;
            }
            line = String::new();
            assert(split_on(next, '\n').drop_last() =~= split_on(pre, '\n'));
            assert(split_on(pre, '\n').drop_last().push(split_on(pre, '\n').last()) =~= split_on(
                pre,
                '\n',
            ));
        } else {
            push_char(&mut line, c);
            assert(split_on(next, '\n').drop_last() =~= split_on(pre, '\n').drop_last());
        }
        i = i + 1;
    }
    assert(contents@.subrange(0, n as int) =~= contents@);
    let ghost all = split_on(contents@, '\n');
    assert(all.drop_last().push(all.last()) =~= all);
    let p = pid_of_line(line.as_str());
    if p.is_some() {
        p
    } else {
        found
    }
}

/// The recorder's status as the control files show it.
#[derive(Clone, Copy, Debug, PartialEq, Eq, Structural)]
pub enum ControlStatus {
    /// No lock marker.
    Stopped,
    /// A lock marker whose process is gone: it is to be removed, with any
    /// pause signal.
    StaleLock,
    Paused,
    Running,
}

/// The status from the control files: whether the lock marker exists,
/// whether the process it names is alive (`None` when it names none), and
/// whether the pause signal exists.
pub fn status_from_files(lock_present: bool, pid_alive: Option<bool>, pause_present: bool) -> (r:
    ControlStatus)
    ensures
        !lock_present ==> r == ControlStatus::Stopped,
        lock_present && pid_alive == Some(false) ==> r == ControlStatus::StaleLock,
        lock_present && pid_alive != Some(false) && pause_present ==> r == ControlStatus::Paused,
        lock_present && pid_alive != Some(false) && !pause_present ==> r
            == ControlStatus::Running,
{
    if !lock_present {
        return ControlStatus::Stopped;
    }
    if let Some(false) = pid_alive {
        return ControlStatus::StaleLock;
    }
    if pause_present {
        ControlStatus::Paused
    } else {
        ControlStatus::Running
    }
}

/// The index of the candidate with the latest modification time among the
/// first `n`, the later one on a tie.
pub open spec fn latest_index(c: Seq<(i64, String)>, n: int) -> Option<int>
    decreases n,
{
    if n <= 0 {
        None
    } else {
        match latest_index(c, n - 1) {
            Some(i) => if c[n - 1].0 >= c[i].0 {
                Some(n - 1)
            } else {
                Some(i)
            },
            None => Some(n - 1),
        }
    }
}

proof fn lemma_latest_index_bounds(c: Seq<(i64, String)>, n: int)
    requires
        0 <= n <= c.len(),
    ensures
        match latest_index(c, n) {
            Some(i) => 0 <= i < n,
            None => n == 0,
        },
    decreases n,
{
    if n > 0 {
        lemma_latest_index_bounds(c, n - 1);
    }
}

/// The recording to attach to a session when none was named: of the video
/// files found (modification time, path), the most recently modified; of
/// several equally recent ones, the last listed.
pub fn pick_latest_video(candidates: &Vec<(i64, String)>) -> (r: Option<String>)
    ensures
        match latest_index(candidates@, candidates@.len() as int) {
            Some(i) => r is Some && r->Some_0@ == candidates@[i].1@,
            None => r is None,
        },
{
    let mut best: Option<usize> = None;
    let mut i: usize = 0;
    while i < candidates.len()
        invariant
            i <= candidates@.len(),
            match latest_index(candidates@, i as int) {
                Some(k) => best == Some(k as usize),
                None => best is None,
            },
        decreases candidates@.len() - i,
    {
        proof {
            lemma_latest_index_bounds(candidates@, i as int);
        }
        best = match best {
            Some(k) => if candidates[i].0 >= candidates[k].0 {
                Some(i)
            } else {
                Some(k)
            },
            None => Some(i),
        };
        i = i + 1;
    }
    proof {
        lemma_latest_index_bounds(candidates@, candidates@.len() as int);
    }
    match best {
        Some(k) => Some(candidates[k].1.clone()),
        None => None,
    }
}

/// A file found in the recording directory: modification time, path, and
/// the extension of its name.
#[derive(Clone, Debug)]
pub struct VideoFile {
    pub modified_ms: i64,
    pub path: String,
    pub extension: String,
}

/// The extensions of recordings: mkv, mp4, mov and webm, in any ASCII case.
pub open spec fn is_video_extension(ext: Seq<char>) -> bool {
    let e = ascii_lower(ext);
    e == "mkv"@ || e == "mp4"@ || e == "mov"@ || e == "webm"@
}

/// The recordings among `files`, in order, as (modification time, path).
pub open spec fn video_candidates(files: Seq<VideoFile>) -> Seq<(i64, String)>
    decreases files.len(),
{
    if files.len() == 0 {
        Seq::empty()
    } else if is_video_extension(files.last().extension@) {
        video_candidates(files.drop_last()).push((files.last().modified_ms, files.last().path))
    } else {
        video_candidates(files.drop_last())
    }
}

fn video_extension(ext: &str) -> (r: bool)
    ensures
        r == is_video_extension(ext@),
{
    let e = to_ascii_lower(ext);
    same_text(e.as_str(), "mkv") || same_text(e.as_str(), "mp4") || same_text(e.as_str(), "mov")
        || same_text(e.as_str(), "webm")
}

/// The recording to attach to a session: the configured path when it is
/// not blank; otherwise, among the files found, the most recently modified
/// recording (the last listed of equally recent ones).
pub fn resolve_video_path(configured: &Option<String>, files: &Vec<VideoFile>) -> (r: Option<String>)
    ensures
        configured is Some && trim(configured->Some_0@).len() > 0 ==> r == *configured,
        !(configured is Some && trim(configured->Some_0@).len() > 0) ==> match latest_index(
            video_candidates(files@),
            video_candidates(files@).len() as int,
        ) {
            Some(i) => r is Some && r->Some_0@ == video_candidates(files@)[i].1@,
            None => r is None,
        },
{
    if let Some(p) = configured {
        if trim_str(p.as_str()).unicode_len() > 0 {
            return Some(p.clone());
        }
    }
    let mut candidates: Vec<(i64, String)> = Vec::new();
    let mut i: usize = 0;
    while i < files.len()
        invariant
            i <= files@.len(),
            candidates@ == video_candidates(files@.subrange(0, i as int)),
        decreases files@.len() - i,
    {
        assert(files@.subrange(0, i + 1).drop_last() =~= files@.subrange(0, i as int));
        if video_extension(files[i].extension.as_str()) {
            candidates.push((files[i].modified_ms, files[i].path.clone()));
        }
        i = i + 1;
    }
    assert(files@.subrange(0, files@.len() as int) =~= files@);
    pick_latest_video(&candidates)
}

} // verus!
