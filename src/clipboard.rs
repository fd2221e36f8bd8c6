//! Clipboard handling: change detection with a settle interval, content
//! de-duplication by hash, text truncation, and the decoding and framing of
//! device-independent bitmaps.
use vstd::prelude::*;
use std::hash::{Hash, Hasher};

verus! {

/// The hash that `DefaultHasher::new()` gives a byte slice. Its keys are
/// fixed, so the hash depends on the bytes alone (for one build of the
/// standard library, whose algorithm may change between releases).
pub uninterp spec fn bytes_hash(b: Seq<u8>) -> u64;

/// The hash that `DefaultHasher::new()` gives a string; like `bytes_hash`,
/// it depends on the characters alone.
pub uninterp spec fn text_hash(s: Seq<char>) -> u64;

/// Relies on `<[u8] as Hash>::hash` fed to `DefaultHasher::new()`, whose keys
/// are fixed: the same bytes give the same hash.
#[verifier::external_body]
pub(crate) fn hash_bytes(bytes: &[u8]) -> (r: u64)
    ensures
        r == bytes_hash(bytes@),
{
    let mut hasher = std::collections::hash_map::DefaultHasher::new();
    bytes.hash(&mut hasher);
    hasher.finish()
}

/// Relies on `<str as Hash>::hash` fed to `DefaultHasher::new()`, whose keys
/// are fixed: the same text gives the same hash.
#[verifier::external_body]
pub(crate) fn hash_text(s: &str) -> (r: u64)
    ensures
        r == text_hash(s@),
{
    let mut hasher = std::collections::hash_map::DefaultHasher::new();
    s.hash(&mut hasher);
    hasher.finish()
}

/// Text cut to a maximum number of characters, with the length of the whole.
#[derive(Clone, Debug)]
pub struct TruncateResult {
    pub text: String,
    pub length: usize,
    pub truncated: bool,
}

/// Keeps at most `max_len` characters of `text`.
pub fn truncate_text(text: String, max_len: usize) -> (r: TruncateResult)
    ensures
        r.length == text@.len(),
        r.truncated == (text@.len() > max_len),
        text@.len() <= max_len ==> r.text@ == text@,
        text@.len() > max_len ==> r.text@ == text@.subrange(0, max_len as int),
{
    let length = text.as_str().unicode_len();
    if length <= max_len {
        return TruncateResult { text, length, truncated: false };
    }
    let cut = text.as_str().substring_char(0, max_len).to_owned();
    TruncateResult { text: cut, length, truncated: true }
}

/// The hash of the last clipboard content emitted, and when.
#[derive(Clone, Copy, Debug, PartialEq, Eq, Structural)]
pub struct ClipboardHash {
    pub hash: u64,
    pub ts_ms: i64,
}

/// Whether content with `hash` seen at `now` repeats the last
/// emission within the window, and what is remembered afterwards.
pub open spec fn dedupe_step(
    last: Option<ClipboardHash>,
    hash: u64,
    now: i64,
    window_ms: int,
) -> (Option<ClipboardHash>, bool) {
    match last {
        Some(l) => if l.hash == hash && now - l.ts_ms <= window_ms {
            (last, true)
        } else {
            (Some(ClipboardHash { hash, ts_ms: now }), false)
        },
        None => (Some(ClipboardHash { hash, ts_ms: now }), false),
    }
}

/// Suppresses repeats of the most recently emitted clipboard content.
#[derive(Clone, Copy, Debug)]
pub struct ClipboardDedupe {
    pub last: Option<ClipboardHash>,
    pub window_ms: i64,
}

impl ClipboardDedupe {
    pub fn new(window_ms: i64) -> (r: ClipboardDedupe)
        ensures
            r.last is None,
            r.window_ms == window_ms,
    {
        ClipboardDedupe { last: None, window_ms }
    }

    /// Whether content seen at `now_ms` repeats the last emission within the
    /// dedupe window; if not, it becomes the last emission.
    pub fn should_skip_clipboard_hash(&mut self, hash: u64, now_ms: i64) -> (r:
        bool)
        ensures
            final(self).window_ms == old(self).window_ms,
            (final(self).last, r) == dedupe_step(
                old(self).last,
                hash,
                now_ms,
                old(self).window_ms as int,
            ),
    {
        if let Some(l) = self.last {
            if l.hash == hash && (now_ms as i128) - (l.ts_ms as i128)
                <= self.window_ms as i128 {
                return true;
            }
        }
        self.last = Some(ClipboardHash { hash, ts_ms: now_ms });
        false
    }
}

/// The dedupe state after checking `hash` at each of `times` in turn, and
/// which of those checks were suppressed.
pub open spec fn run_dedupe(
    last: Option<ClipboardHash>,
    hash: u64,
    times: Seq<i64>,
    window_ms: int,
) -> (Option<ClipboardHash>, Seq<bool>)
    decreases times.len(),
{
    if times.len() == 0 {
        (last, Seq::empty())
    } else {
        let prev = run_dedupe(last, hash, times.drop_last(), window_ms);
        let step = dedupe_step(prev.0, hash, times.last(), window_ms);
        (step.0, prev.1.push(step.1))
    }
}

/// How many of the checks were let through.
pub open spec fn emissions(skipped: Seq<bool>) -> nat
    decreases skipped.len(),
{
    if skipped.len() == 0 {
        0
    } else {
        emissions(skipped.drop_last()) + if skipped.last() {
            0nat
        } else {
            1nat
        }
    }
}

proof fn lemma_dedupe_run(
    last: Option<ClipboardHash>,
    hash: u64,
    times: Seq<i64>,
    window_ms: int,
)
    requires
        times.len() >= 1,
        forall|i: int|
            0 <= i < times.len() ==> times[0] <= #[trigger] times[i] <= times[0] + window_ms,
    ensures
        emissions(run_dedupe(last, hash, times, window_ms).1) <= 1,
        emissions(run_dedupe(last, hash, times, window_ms).1) == 0 ==> run_dedupe(
            last,
            hash,
            times,
            window_ms,
        ).0 == last,
        emissions(run_dedupe(last, hash, times, window_ms).1) == 1 ==> ({
            let l = run_dedupe(last, hash, times, window_ms).0;
            l is Some && l->Some_0.hash == hash && times[0]
                <= l->Some_0.ts_ms
        }),
    decreases times.len(),
{
    let p = times.drop_last();
    if times.len() == 1 {
        assert(p.len() == 0);
        assert(run_dedupe(last, hash, p, window_ms).1.len() == 0);
    } else {
        assert forall|i: int| 0 <= i < p.len() implies p[0] <= #[trigger] p[i] <= p[0]
            + window_ms by {
            assert(p[i] == times[i]);
        }
        lemma_dedupe_run(last, hash, p, window_ms);
        let n = times.len() - 1;
        assert(times[0] <= times[n] <= times[0] + window_ms);
    }
    let whole = run_dedupe(last, hash, times, window_ms);
    assert(whole.1.drop_last() =~= run_dedupe(last, hash, p, window_ms).1);
}

/// One copy whose change is noticed several times: of the checks of the
/// same content made within the dedupe window of the first of them, at most
/// one lets a clipboard event through.
pub proof fn lemma_single_copy_single_event(
    last: Option<ClipboardHash>,
    hash: u64,
    times: Seq<i64>,
    window_ms: int,
)
    requires
        times.len() >= 1,
        forall|i: int|
            0 <= i < times.len() ==> times[0] <= #[trigger] times[i] <= times[0] + window_ms,
    ensures
        emissions(run_dedupe(last, hash, times, window_ms).1) <= 1,
{
    lemma_dedupe_run(last, hash, times, window_ms);
}

/// Decides when the clipboard is read: a change of its sequence number
/// starts a settle interval, and the content is read once it has elapsed.
#[derive(Clone, Copy, Debug)]
pub struct ClipboardWatcher {
    pub last_seq: u32,
    pub pending_since: Option<i64>,
}

impl ClipboardWatcher {
    pub fn new(seq: u32) -> (r: ClipboardWatcher)
        ensures
            r.last_seq == seq,
            r.pending_since is None,
    {
        ClipboardWatcher { last_seq: seq, pending_since: None }
    }

    /// One poll: the sequence number now and the monotonic time. Returns
    /// whether the clipboard should be read now.
    pub fn poll(&mut self, seq: u32, now_ms: i64, debounce_ms: i64) -> (r: bool)
        ensures
            final(self).last_seq == seq,
            ({
                let since = if seq != old(self).last_seq {
                    Some(now_ms)
                } else {
                    old(self).pending_since
                };
                match since {
                    Some(t) => if now_ms - t >= debounce_ms {
                        r && final(self).pending_since is None
                    } else {
                        !r && final(self).pending_since == since
                    },
                    None => !r && final(self).pending_since is None,
                }
            }),
    {
        if seq != self.last_seq {
            self.last_seq = seq;
            self.pending_since = Some(now_ms);
        }
        if let Some(since) = self.pending_since {
            if (now_ms as i128) - (since as i128) >= debounce_ms as i128 {
                self.pending_since = None;
                return true;
            }
        }
        false
    }
}

/// Little-endian unsigned value of the four bytes at `i`.
pub open spec fn le_u32(b: Seq<u8>, i: int) -> int {
    b[i] + b[i + 1] * 0x100 + b[i + 2] * 0x1_0000 + b[i + 3] * 0x100_0000
}

/// Little-endian two's-complement value of the four bytes at `i`.
pub open spec fn le_i32(b: Seq<u8>, i: int) -> int {
    if le_u32(b, i) >= 0x8000_0000 {
        le_u32(b, i) - 0x1_0000_0000
    } else {
        le_u32(b, i)
    }
}

/// Little-endian unsigned value of the two bytes at `i`.
pub open spec fn le_u16(b: Seq<u8>, i: int) -> int {
    b[i] + b[i + 1] * 0x100
}

fn read_u32(b: &[u8], i: usize) -> (r: u32)
    requires
        i + 4 <= b@.len(),
    ensures
        r == le_u32(b@, i as int),
{
    b[i] as u32 + b[i + 1] as u32 * 0x100 + b[i + 2] as u32 * 0x1_0000 + b[i + 3] as u32
        * 0x100_0000
}

fn read_i32(b: &[u8], i: usize) -> (r: i32)
    requires
        i + 4 <= b@.len(),
    ensures
        r == le_i32(b@, i as int),
{
    let v = read_u32(b, i);
    if v >= 0x8000_0000 {
        (v as i64 - 0x1_0000_0000) as i32
    } else {
        v as i32
    }
}

/// What a bitmap header says: width, absolute height, and the size of the
/// pixel data at the end of the buffer.
#[derive(Clone, Copy, Debug, PartialEq, Eq, Structural)]
pub struct DibInfo {
    pub width: i32,
    pub height: u32,
    pub image_size: usize,
}

/// Why a buffer is not a device-independent bitmap.
#[derive(Clone, Copy, Debug, PartialEq, Eq, Structural)]
pub enum DibError {
    /// Shorter than the smallest header.
    TooShort,
    /// The header declares a size below the smallest header.
    HeaderTooSmall,
    /// The buffer ends before the declared header does.
    Truncated,
}

pub open spec fn abs(v: int) -> int {
    if v < 0 {
        -v
    } else {
        v
    }
}

/// Bytes per pixel row, rows padded to four bytes.
pub open spec fn row_bytes(bit_count: int, width_abs: int) -> int {
    ((bit_count * width_abs + 31) / 32) * 4
}

/// The pixel data size computed from the header, capped at `u32::MAX`.
pub open spec fn computed_image_size(b: Seq<u8>) -> int {
    let w = if abs(le_i32(b, 4)) == 0 {
        1
    } else {
        abs(le_i32(b, 4))
    };
    let h = if abs(le_i32(b, 8)) == 0 {
        1
    } else {
        abs(le_i32(b, 8))
    };
    let p = row_bytes(le_u16(b, 14), w) * h;
    if p > 0xffff_ffff {
        0xffff_ffff
    } else {
        p
    }
}

/// The header's stated pixel data size when it is non-zero and fits the
/// buffer; otherwise the computed size, capped at the buffer length.
pub open spec fn dib_image_size(b: Seq<u8>) -> int {
    let stated = le_u32(b, 20);
    if stated > 0 && stated <= b.len() {
        stated
    } else if computed_image_size(b) > 0 && stated == 0 && computed_image_size(b) <= b.len() {
        computed_image_size(b)
    } else if b.len() < computed_image_size(b) {
        b.len() as int
    } else {
        computed_image_size(b)
    }
}

/// The decoded header of a device-independent bitmap, or why it is none.
pub open spec fn dib_result(b: Seq<u8>) -> Result<DibInfo, DibError> {
    if b.len() < 40 {
        Err(DibError::TooShort)
    } else if le_u32(b, 0) < 40 {
        Err(DibError::HeaderTooSmall)
    } else if b.len() < le_u32(b, 0) {
        Err(DibError::Truncated)
    } else {
        Ok(
            DibInfo {
                width: le_i32(b, 4) as i32,
                height: abs(le_i32(b, 8)) as u32,
                image_size: dib_image_size(b) as usize,
            },
        )
    }
}

/// Reads the header of a device-independent bitmap.
pub fn parse_dib_info(bytes: &[u8]) -> (r: Result<DibInfo, DibError>)
    ensures
        bytes@.len() < 40 ==> r == Err::<DibInfo, DibError>(DibError::TooShort),
        bytes@.len() >= 40 && le_u32(bytes@, 0) < 40 ==> r == Err::<DibInfo, DibError>(
            DibError::HeaderTooSmall,
        ),
        bytes@.len() >= 40 && le_u32(bytes@, 0) >= 40 && bytes@.len() < le_u32(bytes@, 0)
            ==> r == Err::<DibInfo, DibError>(DibError::Truncated),
        bytes@.len() >= 40 && 40 <= le_u32(bytes@, 0) <= bytes@.len() ==> r is Ok && r->Ok_0.width
            == le_i32(bytes@, 4) && r->Ok_0.height == abs(le_i32(bytes@, 8))
            && r->Ok_0.image_size == dib_image_size(bytes@),
        r == dib_result(bytes@),
{
    let len = bytes.len();
    if len < 40 {
        return Err(DibError::TooShort);
    }
    let header_size = read_u32(bytes, 0);
    if header_size < 40 {
        return Err(DibError::HeaderTooSmall);
    }
    if (len as u64) < header_size as u64 {
        return Err(DibError::Truncated);
    }
    let width = read_i32(bytes, 4);
    let height = read_i32(bytes, 8);
    let bit_count: u16 = bytes[14] as u16 + bytes[15] as u16 * 0x100;
    let size_image = read_u32(bytes, 20);
    let w_abs: u64 = if width < 0 {
        (0 - (width as i64)) as u64
    } else if width == 0 {
        1
    } else {
        width as u64
    };
    let h_abs: u64 = if height < 0 {
        (0 - (height as i64)) as u64
    } else {
        height as u64
    };
    let h_rows: u64 = if h_abs == 0 {
        1
    } else {
        h_abs
    };
    assert(bit_count as u64 * w_abs <= 0xffff * 0x8000_0000) by (nonlinear_arith)
        requires
            bit_count <= 0xffff,
            w_abs <= 0x8000_0000,
    ;
    let row: u64 = ((bit_count as u64 * w_abs + 31) / 32) * 4;
    assert(row <= 0x8000_0000_0000);
    assert(row as u128 * h_rows as u128 <= 0x8000_0000_0000 * 0x8000_0000) by (nonlinear_arith)
        requires
            row <= 0x8000_0000_0000,
            h_rows <= 0x8000_0000,
    ;
    let product: u128 = row as u128 * h_rows as u128;
    let computed: u64 = if product > 0xffff_ffff {
        0xffff_ffff
    } else {
        product as u64
    };
    let image_size: u64 = if size_image > 0 && (size_image as u64) <= len as u64 {
        size_image as u64
    } else if computed > 0 && size_image == 0 && computed <= len as u64 {
        computed
    } else if (len as u64) < computed {
        len as u64
    } else {
        computed
    };
    Ok(DibInfo { width, height: h_abs as u32, image_size: image_size as usize })
}

/// The four little-endian bytes of `v`.
pub open spec fn le_bytes(v: int) -> Seq<u8> {
    seq![(v % 0x100) as u8, ((v / 0x100) % 0x100) as u8, ((v / 0x1_0000) % 0x100) as u8, ((v
        / 0x100_0000) % 0x100) as u8]
}

fn push_le_u32(out: &mut Vec<u8>, v: u32)
    ensures
        final(out)@ == old(out)@ + le_bytes(v as int),
{
    out.push((v % 0x100) as u8);
    out.push(((v / 0x100) % 0x100) as u8);
    out.push(((v / 0x1_0000) % 0x100) as u8);
    out.push(((v / 0x100_0000) % 0x100) as u8);
    assert(final(out)@ =~= old(out)@ + le_bytes(v as int));
}

pub open spec fn capped_u32(v: int) -> int {
    if v > 0xffff_ffff {
        0xffff_ffff
    } else {
        v
    }
}

/// The 14-byte file header that turns a device-independent bitmap of
/// `dib_len` bytes, whose last `image_size` bytes are pixel data, into a
/// bitmap file: the signature, the file size and the offset of the pixel
/// data (both capped at `u32::MAX`).
pub fn bmp_file_header(dib_len: usize, image_size: usize) -> (r: Vec<u8>)
    ensures
        r@ == seq![0x42u8, 0x4du8] + le_bytes(capped_u32(14 + dib_len)) + seq![0u8, 0u8, 0u8, 0u8]
            + le_bytes(capped_u32(14 + (if dib_len >= image_size {
            dib_len - image_size
        } else {
            0
        }))),
{
    let header_bytes: usize = if dib_len >= image_size {
        dib_len - image_size
    } else {
        0
    };
    let file_size: u32 = if dib_len as u64 > 0xffff_ffff - 14 {
        0xffff_ffff
    } else {
        14 + dib_len as u32
    };
    let offset: u32 = if header_bytes as u64 > 0xffff_ffff - 14 {
        0xffff_ffff
    } else {
        14 + header_bytes as u32
    };
    let mut out: Vec<u8> = Vec::new();
    out.push(0x42);
    out.push(0x4d);
    push_le_u32(&mut out, file_size);
    out.push(0);
    out.push(0);
    out.push(0);
    out.push(0);
    push_le_u32(&mut out, offset);
    assert(out@ =~= seq![0x42u8, 0x4du8] + le_bytes(capped_u32(14 + dib_len)) + seq![
        0u8,
        0u8,
        0u8,
        0u8,
    ] + le_bytes(capped_u32(14 + header_bytes)));
    out
}

/// The two little-endian bytes of `v`.
pub open spec fn le_bytes16(v: int) -> Seq<u8> {
    seq![(v % 0x100) as u8, ((v / 0x100) % 0x100) as u8]
}

/// The 40-byte header of a 32-bit, uncompressed, bottom-up bitmap of
/// `width` by `height` pixels whose pixel data follows it.
pub open spec fn rgba_info_header(width: int, height: int) -> Seq<u8> {
    le_bytes(40) + le_bytes(width) + le_bytes(height) + le_bytes16(1) + le_bytes16(32) + le_bytes(0)
        + le_bytes((width * height * 4) % 0x1_0000_0000) + le_bytes(0) + le_bytes(0) + le_bytes(0)
        + le_bytes(0)
}

/// The header under which a captured icon of `width` by `height` pixels is
/// saved, its pixel data following.
pub fn icon_info_header(width: u32, height: u32) -> (r: Vec<u8>)
    ensures
        r@ == rgba_info_header(width as int, height as int),
{
    let mut out: Vec<u8> = Vec::new();
    push_le_u32(&mut out, 40);
    push_le_u32(&mut out, width);
    push_le_u32(&mut out, height);
    out.push(1);
    out.push(0);
    out.push(32);
    out.push(0);
    push_le_u32(&mut out, 0);
    assert(width as u64 * height as u64 <= 0xffff_ffff * 0xffff_ffff) by (nonlinear_arith)
        requires
            width <= 0xffff_ffff,
            height <= 0xffff_ffff,
    ;
    let pixels: u128 = width as u128 * height as u128 * 4;
    let size_image: u32 = (pixels % 0x1_0000_0000) as u32;
    push_le_u32(&mut out, size_image);
    push_le_u32(&mut out, 0);
    push_le_u32(&mut out, 0);
    push_le_u32(&mut out, 0);
    push_le_u32(&mut out, 0);
    assert(out@ =~= rgba_info_header(width as int, height as int));
    out
}

} // verus!
