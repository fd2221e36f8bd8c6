//! Decisions of the segment media processor that reads the event log:
//! which events get a frame, which key-down frames get OCR, when a segment
//! is ready, and the progress summary it records.
use vstd::prelude::*;
use crate::keyboard::views;
use crate::strings::{
    push_char, decimal_of, same_text, trim, trim_str, split_on, lemma_split_on_nonempty,
    unsigned_parse, i64_parse, parse_u32, parse_u8, parse_u64, parse_i64,
};

verus! {

/// What `str::to_lowercase` gives for a text; it depends on the characters
/// alone.
pub uninterp spec fn lower_of(s: Seq<char>) -> Seq<char>;

/// Relies on `str::to_lowercase`: full Unicode lower-casing, a function of
/// the characters alone; an empty text stays empty.
#[verifier::external_body]
fn lowercase(s: &str) -> (r: String)
    ensures
        r@ == lower_of(s@),
        s@.len() == 0 ==> r@.len() == 0,
{
    s.to_lowercase()
}

/// The event type named by one piece of a filter list.
pub open spec fn type_of_piece(p: Seq<char>) -> Seq<char> {
    lower_of(trim(p))
}

/// The distinct event types named by the pieces that are not blank, in
/// order of first appearance.
pub open spec fn types_of(pieces: Seq<Seq<char>>) -> Seq<Seq<char>>
    decreases pieces.len(),
{
    if pieces.len() == 0 {
        Seq::empty()
    } else {
        let prev = types_of(pieces.drop_last());
        let t = type_of_piece(pieces.last());
        if trim(pieces.last()).len() == 0 || prev.contains(t) {
            prev
        } else {
            prev.push(t)
        }
    }
}

fn add_type(out: &mut Vec<String>, piece: &str)
    ensures
        views(final(out)@) == ({
            let t = type_of_piece(piece@);
            if trim(piece@).len() == 0 || views(old(out)@).contains(t) {
                views(old(out)@)
            } else {
                views(old(out)@).push(t)
            }
        }),
{
    let trimmed = trim_str(piece);
    if trimmed.unicode_len() == 0 {
        return;
    }
    let t = lowercase(trimmed);
    let mut i: usize = 0;
    while i < out.len()
        invariant
            i <= out@.len(),
            out@ == old(out)@,
            t@ == type_of_piece(piece@),
            trim(piece@).len() > 0,
            forall|j: int| 0 <= j < i ==> views(out@)[j] != t@,
        decreases out@.len() - i,
    {
        if same_text(out[i].as_str(), t.as_str()) {
            assert(views(out@)[i as int] == t@);
            assert(0 <= i < views(out@).len());
            assert(views(out@).contains(t@));
            return;
        }
        i = i + 1;
    }
    out.push(t);
    assert(views(out@) =~= views(old(out)@).push(t@));
}

/// The event types named in a comma-separated list: trimmed, lower-cased,
/// without empty entries or repeats.
pub fn parse_event_types(value: &str) -> (r: Vec<String>)
    ensures
        views(r@) == types_of(split_on(value@, ',')),
{
    let n = value.unicode_len();
    let mut out: Vec<String> = Vec::new();
    let mut piece = String::new();
    let mut i: usize = 0;
    proof {
        lemma_split_on_nonempty(value@.subrange(0, 0), ',');
        assert(value@.subrange(0, 0) =~= Seq::<char>::empty());
        assert(views(out@) =~= types_of(Seq::<Seq<char>>::empty()));
        assert(split_on(Seq::<char>::empty(), ',').drop_last() =~= Seq::<Seq<char>>::empty());
    }
    while i < n
        invariant
            n == value@.len(),
            i <= n,
            split_on(value@.subrange(0, i as int), ',').len() >= 1,
            piece@ == split_on(value@.subrange(0, i as int), ',').last(),
            views(out@) == types_of(split_on(value@.subrange(0, i as int), ',').drop_last()),
        decreases n - i,
    {
        let c = value.get_char(i);
        let ghost pre = value@.subrange(0, i as int);
        let ghost next = value@.subrange(0, i + 1);
        assert(next.drop_last() =~= pre);
        proof {
            lemma_split_on_nonempty(next, ',');
        }
        if c == ',' {
            add_type(&mut out, piece.as_str());
            piece = String::new();
            assert(split_on(next, ',').drop_last() =~= split_on(pre, ','));
            assert(split_on(pre, ',').drop_last().push(split_on(pre, ',').last()) =~= split_on(
                pre,
                ',',
            ));
        } else {
            push_char(&mut piece, c);
            assert(split_on(next, ',').drop_last() =~= split_on(pre, ',').drop_last());
        }
        i = i + 1;
    }
    assert(value@.subrange(0, n as int) =~= value@);
    let ghost all = split_on(value@, ',');
    add_type(&mut out, piece.as_str());
    assert(all.drop_last().push(all.last()) =~= all);
    out
}

/// How key-down frames are chosen for OCR.
#[derive(Clone, Copy, Debug, PartialEq, Eq, Structural)]
pub enum OcrKeydownMode {
    /// Only the last key-down of each run in one window.
    GroupHead,
    All,
}

/// "all" (trimmed, any case) selects every key-down; anything else the
/// group heads.
pub fn parse_ocr_keydown_mode(value: &str) -> (r: OcrKeydownMode)
    ensures
        r == (if lower_of(trim(value@)) == "all"@ {
            OcrKeydownMode::All
        } else {
            OcrKeydownMode::GroupHead
        }),
{
    let lowered = lowercase(trim_str(value));
    if same_text(lowered.as_str(), "all") {
        OcrKeydownMode::All
    } else {
        OcrKeydownMode::GroupHead
    }
}

/// Whether an event type passes the filter: every type does without one.
pub fn event_type_allowed(event_type: &str, filter: &Option<Vec<String>>) -> (r: bool)
    ensures
        r == match filter {
            None => true,
            Some(set) => views(set@).contains(lower_of(event_type@)),
        },
{
    match filter {
        None => true,
        Some(set) => {
            let lowered = lowercase(event_type);
            let mut i: usize = 0;
            while i < set.len()
                invariant
                    i <= set@.len(),
                    lowered@ == lower_of(event_type@),
                    *filter == Some(*set),
                    forall|j: int| 0 <= j < i ==> views(set@)[j] != lowered@,
                decreases set@.len() - i,
            {
                if same_text(set[i].as_str(), lowered.as_str()) {
                    assert(views(set@)[i as int] == lowered@);
                    assert(0 <= i < views(set@).len());
                    assert(views(set@).contains(lowered@));
                    return true;
                }
                i = i + 1;
            }
            false
        },
    }
}

pub open spec fn or_empty(o: Option<String>) -> Seq<char> {
    match o {
        Some(s) => s@,
        None => Seq::empty(),
    }
}

fn append_opt(out: &mut String, o: &Option<String>)
    ensures
        final(out)@ == old(out)@ + or_empty(*o),
{
    match o {
        Some(s) => out.append(s.as_str()),
        None => {
            assert(old(out)@ + Seq::<char>::empty() =~= old(out)@);
        },
    }
}

/// The key that identifies a window: process, title and class joined by
/// '|', a missing one written empty.
pub fn build_window_key(
    process_name: Option<String>,
    window_title: Option<String>,
    window_class: Option<String>,
) -> (r: String)
    ensures
        r@ == or_empty(process_name) + seq!['|'] + or_empty(window_title) + seq!['|'] + or_empty(
            window_class,
        ),
{
    let mut out = String::new();
    append_opt(&mut out, &process_name);
    push_char(&mut out, '|');
    append_opt(&mut out, &window_title);
    push_char(&mut out, '|');
    append_opt(&mut out, &window_class);
    assert(out@ =~= or_empty(process_name) + seq!['|'] + or_empty(window_title) + seq!['|']
        + or_empty(window_class));
    out
}

/// An event of a segment as the processor sees it.
#[derive(Clone, Debug)]
pub struct EventInfo {
    pub id: i64,
    pub ts_wall_ms: i64,
    pub event_type: String,
    pub window_key: String,
}

/// Whether event `i` is the last key-down of a run of key-downs in one
/// window.
pub open spec fn is_group_head(events: Seq<EventInfo>, i: int) -> bool {
    &&& events[i].event_type@ == "key_down"@
    &&& (i + 1 >= events.len() || events[i + 1].event_type@ != "key_down"@ || events[i
        + 1].window_key@ != events[i].window_key@)
}

/// The ids of the group heads among the first `n` events, in order.
pub open spec fn group_heads(events: Seq<EventInfo>, n: int) -> Seq<i64>
    decreases n,
{
    if n <= 0 {
        Seq::empty()
    } else if is_group_head(events, n - 1) {
        group_heads(events, n - 1).push(events[n - 1].id)
    } else {
        group_heads(events, n - 1)
    }
}

/// The ids of the key-downs that end a run of key-downs in one window.
pub fn keydown_group_heads(events: &Vec<EventInfo>) -> (r: Vec<i64>)
    ensures
        r@ == group_heads(events@, events@.len() as int),
{
    let mut heads: Vec<i64> = Vec::new();
    let mut i: usize = 0;
    while i < events.len()
        invariant
            i <= events@.len(),
            heads@ == group_heads(events@, i as int),
        decreases events@.len() - i,
    {
        let event = &events[i];
        if same_text(event.event_type.as_str(), "key_down") {
            let is_end = if i + 1 >= events.len() {
                true
            } else {
                let next = &events[i + 1];
                !same_text(next.event_type.as_str(), "key_down") || !same_text(
                    next.window_key.as_str(),
                    event.window_key.as_str(),
                )
            };
            if is_end {
                heads.push(event.id);
            }
        }
        i = i + 1;
    }
    heads
}

/// A recorded segment of the external video.
#[derive(Clone, Debug)]
pub struct RecordSegment {
    pub id: i64,
    pub session_id: Option<String>,
    pub start_wall_ms: i64,
    pub end_wall_ms: i64,
    pub obs_path: Option<String>,
}

/// A segment is ready once it ended at least `grace_ms` before `now_ms`.
pub fn segment_ready(segment: &RecordSegment, grace_ms: i64, now_ms: i64) -> (r: bool)
    ensures
        r == (segment.end_wall_ms <= now_ms - grace_ms),
{
    (segment.end_wall_ms as i128) <= (now_ms as i128) - (grace_ms as i128)
}

/// Progress of one segment's processing.
#[derive(Clone, Copy, Debug, PartialEq, Eq, Structural)]
pub struct ProcessingCounts {
    pub frames_done: i64,
    pub frames_total: i64,
    pub ocr_done: i64,
    pub ocr_total: i64,
    pub audio_done: bool,
    pub transcribe_done: bool,
}

/// "label done/total".
pub open spec fn ratio_part(label: Seq<char>, done: i64, total: i64) -> Seq<char> {
    label + seq![' '] + decimal_of(done as int) + seq!['/'] + decimal_of(total as int)
}

/// The parts of a summary, in order.
pub open spec fn summary_parts(c: ProcessingCounts) -> Seq<Seq<char>> {
    (if c.frames_total > 0 {
        seq![ratio_part("frames"@, c.frames_done, c.frames_total)]
    } else {
        Seq::empty()
    }) + (if c.ocr_total > 0 {
        seq![ratio_part("ocr"@, c.ocr_done, c.ocr_total)]
    } else {
        Seq::empty()
    }) + (if c.audio_done {
        seq!["audio ok"@]
    } else {
        Seq::empty()
    }) + (if c.transcribe_done {
        seq!["tx ok"@]
    } else {
        Seq::empty()
    })
}

/// Parts joined by " | ".
pub open spec fn joined(parts: Seq<Seq<char>>) -> Seq<char>
    decreases parts.len(),
{
    if parts.len() == 0 {
        Seq::empty()
    } else if parts.len() == 1 {
        parts[0]
    } else {
        joined(parts.drop_last()) + " | "@ + parts.last()
    }
}

fn ratio(label: &str, done: i64, total: i64) -> (r: String)
    ensures
        r@ == ratio_part(label@, done, total),
{
    let mut out = String::new();
    out.append(label);
    push_char(&mut out, ' ');
    crate::strings::push_signed_decimal(&mut out, done);
    push_char(&mut out, '/');
    crate::strings::push_signed_decimal(&mut out, total);
    assert(out@ =~= ratio_part(label@, done, total));
    out
}

fn join_parts(parts: &Vec<String>) -> (r: String)
    ensures
        r@ == joined(views(parts@)),
{
    let mut out = String::new();
    let mut i: usize = 0;
    while i < parts.len()
        invariant
            i <= parts@.len(),
            out@ == joined(views(parts@.subrange(0, i as int))),
        decreases parts@.len() - i,
    {
        let ghost pre = views(parts@.subrange(0, i as int));
        let ghost next = views(parts@.subrange(0, i + 1));
        assert(next.drop_last() =~= pre);
        if i > 0 {
            out.append(" | ");
        } else {
            assert(pre.len() == 0);
        }
        out.append(parts[i].as_str());
        if i == 0 {
            assert(next.len() == 1);
            assert(out@ =~= joined(next));
        } else {
            assert(out@ =~= joined(next));
        }
        i = i + 1;
    }
    assert(parts@.subrange(0, parts@.len() as int) =~= parts@);
    out
}

/// The one-line progress summary: the parts that apply joined by " | ",
/// or "idle" when none does.
pub fn build_processing_summary(counts: &ProcessingCounts) -> (r: String)
    ensures
        r@ == if summary_parts(*counts).len() == 0 {
            "idle"@
        } else {
            joined(summary_parts(*counts))
        },
{
    let mut parts: Vec<String> = Vec::new();
    if counts.frames_total > 0 {
        parts.push(ratio("frames", counts.frames_done, counts.frames_total));
    }
    if counts.ocr_total > 0 {
        parts.push(ratio("ocr", counts.ocr_done, counts.ocr_total));
    }
    if counts.audio_done {
        parts.push(String::from_str("audio ok"));
    }
    if counts.transcribe_done {
        parts.push(String::from_str("tx ok"));
    }
    assert(views(parts@) =~= summary_parts(*counts));
    if parts.len() == 0 {
        String::from_str("idle")
    } else {
        join_parts(&parts)
    }
}

/// The media processor's options.
#[derive(Clone, Debug)]
pub struct TapperArgs {
    pub db_path: Option<String>,
    pub frames_dir: Option<String>,
    pub audio_dir: Option<String>,
    pub session_id: Option<String>,
    pub scale_width: u32,
    pub jpeg_quality: u8,
    pub poll_ms: u64,
    pub grace_ms: i64,
    pub frame_offset_ms: i64,
    pub transcribe_model: String,
    pub ocr_lang: String,
    pub event_types: Option<Vec<String>>,
    pub ocr_keydown_mode: OcrKeydownMode,
    pub quiet_ffmpeg: bool,
    pub verbose: bool,
}

pub const DEFAULT_SCALE_WIDTH: u32 = 1280;
pub const DEFAULT_JPEG_QUALITY: u8 = 4;
pub const DEFAULT_POLL_MS: u64 = 1500;
pub const DEFAULT_GRACE_MS: i64 = 2000;
pub const DEFAULT_FRAME_OFFSET_MS: i64 = 200;

/// Mathematical model of `TapperArgs`.
pub struct TapperArgsView {
    pub db_path: Option<Seq<char>>,
    pub frames_dir: Option<Seq<char>>,
    pub audio_dir: Option<Seq<char>>,
    pub session_id: Option<Seq<char>>,
    pub scale_width: u32,
    pub jpeg_quality: u8,
    pub poll_ms: u64,
    pub grace_ms: i64,
    pub frame_offset_ms: i64,
    pub transcribe_model: Seq<char>,
    pub ocr_lang: Seq<char>,
    pub event_types: Option<Seq<Seq<char>>>,
    pub ocr_keydown_mode: OcrKeydownMode,
    pub quiet_ffmpeg: bool,
    pub verbose: bool,
}

pub open spec fn opt_text(o: Option<String>) -> Option<Seq<char>> {
    match o {
        Some(s) => Some(s@),
        None => None,
    }
}

impl View for TapperArgs {
    type V = TapperArgsView;

    open spec fn view(&self) -> TapperArgsView {
        TapperArgsView {
            db_path: opt_text(self.db_path),
            frames_dir: opt_text(self.frames_dir),
            audio_dir: opt_text(self.audio_dir),
            session_id: opt_text(self.session_id),
            scale_width: self.scale_width,
            jpeg_quality: self.jpeg_quality,
            poll_ms: self.poll_ms,
            grace_ms: self.grace_ms,
            frame_offset_ms: self.frame_offset_ms,
            transcribe_model: self.transcribe_model@,
            ocr_lang: self.ocr_lang@,
            event_types: match self.event_types {
                Some(v) => Some(views(v@)),
                None => None,
            },
            ocr_keydown_mode: self.ocr_keydown_mode,
            quiet_ffmpeg: self.quiet_ffmpeg,
            verbose: self.verbose,
        }
    }
}

/// The option value `v` given to `flag`, applied to `a`.
pub open spec fn apply_value(a: TapperArgsView, flag: Seq<char>, v: Seq<char>) -> TapperArgsView {
    if flag == "--db"@ {
        TapperArgsView { db_path: Some(v), ..a }
    } else if flag == "--frames-dir"@ {
        TapperArgsView { frames_dir: Some(v), ..a }
    } else if flag == "--audio-dir"@ {
        TapperArgsView { audio_dir: Some(v), ..a }
    } else if flag == "--scale-width"@ {
        TapperArgsView {
            scale_width: match unsigned_parse(v, u32::MAX as int) {
                Some(x) => x as u32,
                None => DEFAULT_SCALE_WIDTH,
            },
            ..a
        }
    } else if flag == "--jpeg-quality"@ {
        TapperArgsView {
            jpeg_quality: match unsigned_parse(v, u8::MAX as int) {
                Some(x) => x as u8,
                None => DEFAULT_JPEG_QUALITY,
            },
            ..a
        }
    } else if flag == "--poll-ms"@ {
        TapperArgsView {
            poll_ms: match unsigned_parse(v, u64::MAX as int) {
                Some(x) => x as u64,
                None => DEFAULT_POLL_MS,
            },
            ..a
        }
    } else if flag == "--grace-ms"@ {
        TapperArgsView {
            grace_ms: match i64_parse(v) {
                Some(x) => x as i64,
                None => DEFAULT_GRACE_MS,
            },
            ..a
        }
    } else if flag == "--frame-offset-ms"@ {
        TapperArgsView {
            frame_offset_ms: match i64_parse(v) {
                Some(x) => x as i64,
                None => DEFAULT_FRAME_OFFSET_MS,
            },
            ..a
        }
    } else if flag == "--transcribe-model"@ {
        if trim(v).len() == 0 {
            a
        } else {
            TapperArgsView { transcribe_model: v, ..a }
        }
    } else if flag == "--ocr-lang"@ {
        if trim(v).len() == 0 {
            a
        } else {
            TapperArgsView { ocr_lang: v, ..a }
        }
    } else if flag == "--event-types"@ {
        if types_of(split_on(v, ',')).len() == 0 {
            a
        } else {
            TapperArgsView { event_types: Some(types_of(split_on(v, ','))), ..a }
        }
    } else {
        TapperArgsView {
            ocr_keydown_mode: if lower_of(trim(v)) == "all"@ {
                OcrKeydownMode::All
            } else {
                OcrKeydownMode::GroupHead
            },
            ..a
        }
    }
}

/// The flags that take a value (besides `--session-id`).
pub open spec fn takes_value(flag: Seq<char>) -> bool {
    flag == "--db"@ || flag == "--frames-dir"@ || flag == "--audio-dir"@ || flag
        == "--scale-width"@ || flag == "--jpeg-quality"@ || flag == "--poll-ms"@ || flag
        == "--grace-ms"@ || flag == "--frame-offset-ms"@ || flag == "--transcribe-model"@ || flag
        == "--ocr-lang"@ || flag == "--event-types"@ || flag == "--ocr-keydown-mode"@
}

/// The options that the arguments from index `i` on give, starting from
/// `a`. A flag that takes a value consumes the next argument; a number that
/// does not parse resets that option to its default; `--session-id` with
/// nothing after it clears the session; unknown arguments are skipped.
pub open spec fn tapper_args_from(args: Seq<Seq<char>>, i: int, a: TapperArgsView) -> TapperArgsView
    decreases args.len() - i,
{
    if i < 0 || i >= args.len() {
        a
    } else {
        let f = args[i];
        let has_next = i + 1 < args.len();
        if f == "--session-id"@ {
            if has_next {
                tapper_args_from(args, i + 2, TapperArgsView { session_id: Some(args[i + 1]), ..a })
            } else {
                TapperArgsView { session_id: None, ..a }
            }
        } else if takes_value(f) {
            if has_next {
                tapper_args_from(args, i + 2, apply_value(a, f, args[i + 1]))
            } else {
                a
            }
        } else if f == "--quiet-ffmpeg"@ {
            tapper_args_from(args, i + 1, TapperArgsView { quiet_ffmpeg: true, ..a })
        } else if f == "--verbose"@ {
            tapper_args_from(args, i + 1, TapperArgsView { verbose: true, ..a })
        } else {
            tapper_args_from(args, i + 1, a)
        }
    }
}

impl TapperArgs {
    /// The defaults: no paths or session filter, width 1280, quality 4,
    /// polls every 1500 ms, a 2000 ms grace, frames 200 ms after the event,
    /// the "medium" model, English OCR, every event type, group heads only.
    pub fn defaults() -> (r: TapperArgs)
        ensures
            r@ == TapperArgs::default_view(),
    {
        TapperArgs {
            db_path: None,
            frames_dir: None,
            audio_dir: None,
            session_id: None,
            scale_width: DEFAULT_SCALE_WIDTH,
            jpeg_quality: DEFAULT_JPEG_QUALITY,
            poll_ms: DEFAULT_POLL_MS,
            grace_ms: DEFAULT_GRACE_MS,
            frame_offset_ms: DEFAULT_FRAME_OFFSET_MS,
            transcribe_model: String::from_str("medium"),
            ocr_lang: String::from_str("eng"),
            event_types: None,
            ocr_keydown_mode: OcrKeydownMode::GroupHead,
            quiet_ffmpeg: false,
            verbose: false,
        }
    }

    pub open spec fn default_view() -> TapperArgsView {
        TapperArgsView {
            db_path: None,
            frames_dir: None,
            audio_dir: None,
            session_id: None,
            scale_width: DEFAULT_SCALE_WIDTH,
            jpeg_quality: DEFAULT_JPEG_QUALITY,
            poll_ms: DEFAULT_POLL_MS,
            grace_ms: DEFAULT_GRACE_MS,
            frame_offset_ms: DEFAULT_FRAME_OFFSET_MS,
            transcribe_model: "medium"@,
            ocr_lang: "eng"@,
            event_types: None,
            ocr_keydown_mode: OcrKeydownMode::GroupHead,
            quiet_ffmpeg: false,
            verbose: false,
        }
    }

    fn apply(&mut self, flag: &str, value: &String)
        requires
            takes_value(flag@),
        ensures
            final(self)@ == apply_value(old(self)@, flag@, value@),
    {
        let v = value.as_str();
        if same_text(flag, "--db") {
            self.db_path = Some(value.clone());
        } else if same_text(flag, "--frames-dir") {
            self.frames_dir = Some(value.clone());
        } else if same_text(flag, "--audio-dir") {
            self.audio_dir = Some(value.clone());
        } else if same_text(flag, "--scale-width") {
            self.scale_width = match parse_u32(v) {
                Some(x) => x,
                None => DEFAULT_SCALE_WIDTH,
            };
        } else if same_text(flag, "--jpeg-quality") {
            self.jpeg_quality = match parse_u8(v) {
                Some(x) => x,
                None => DEFAULT_JPEG_QUALITY,
            };
        } else if same_text(flag, "--poll-ms") {
            self.poll_ms = match parse_u64(v) {
                Some(x) => x,
                None => DEFAULT_POLL_MS,
            };
        } else if same_text(flag, "--grace-ms") {
            self.grace_ms = match parse_i64(v) {
                Some(x) => x,
                None => DEFAULT_GRACE_MS,
            };
        } else if same_text(flag, "--frame-offset-ms") {
            self.frame_offset_ms = match parse_i64(v) {
                Some(x) => x,
                None => DEFAULT_FRAME_OFFSET_MS,
            };
        } else if same_text(flag, "--transcribe-model") {
            if trim_str(v).unicode_len() > 0 {
                self.transcribe_model = value.clone();
            }
        } else if same_text(flag, "--ocr-lang") {
            if trim_str(v).unicode_len() > 0 {
                self.ocr_lang = value.clone();
            }
        } else if same_text(flag, "--event-types") {
            let types = parse_event_types(v);
            if types.len() > 0 {
                self.event_types = Some(types);
            }
        } else {
            self.ocr_keydown_mode = parse_ocr_keydown_mode(v);
        }
    }
}

fn is_value_flag(flag: &str) -> (r: bool)
    ensures
        r == takes_value(flag@),
{
    same_text(flag, "--db") || same_text(flag, "--frames-dir") || same_text(flag, "--audio-dir")
        || same_text(flag, "--scale-width") || same_text(flag, "--jpeg-quality") || same_text(
        flag,
        "--poll-ms",
    ) || same_text(flag, "--grace-ms") || same_text(flag, "--frame-offset-ms") || same_text(
        flag,
        "--transcribe-model",
    ) || same_text(flag, "--ocr-lang") || same_text(flag, "--event-types") || same_text(
        flag,
        "--ocr-keydown-mode",
    )
}

/// The media processor's options from its command-line arguments.
pub fn parse_args(args: &Vec<String>) -> (r: TapperArgs)
    ensures
        r@ == tapper_args_from(views(args@), 0, TapperArgs::default_view()),
{
    let ghost a = views(args@);
    let mut out = TapperArgs::defaults();
    let n = args.len();
    let mut i: usize = 0;
    while i < n
        invariant
            n == args@.len(),
            a == views(args@),
            i <= n,
            tapper_args_from(a, 0, TapperArgs::default_view()) == tapper_args_from(
                a,
                i as int,
                out@,
            ),
        decreases n - i,
    {
        let flag = args[i].as_str();
        let has_next = i + 1 < n;
        assert(a[i as int] == flag@);
        if same_text(flag, "--session-id") {
            if has_next {
                out.session_id = Some(args[i + 1].clone());
                i = i + 2;
            } else {
                out.session_id = None;
                i = n;
            }
        } else if is_value_flag(flag) {
            if has_next {
                out.apply(flag, &args[i + 1]);
                i = i + 2;
            } else {
                i = n;
            }
        } else if same_text(flag, "--quiet-ffmpeg") {
            out.quiet_ffmpeg = true;
            i = i + 1;
        } else if same_text(flag, "--verbose") {
            out.verbose = true;
            i = i + 1;
        } else {
            i = i + 1;
        }
    }
    out
}

} // verus!
