//! Audio handling for the audio-native transcription model: collapsing long
//! silent gaps in 16 kHz mono i16 PCM, wrapping PCM in a WAV container, and
//! marking the caret in the text that a spoken edit applies to.
use vstd::prelude::*;

use crate::text::{chars_of, push_chars};

verus! {

/// Sample rate of the PCM that the recorder produces.
pub const SAMPLE_RATE: u32 = 16000;

/// 20 ms of 16 kHz mono i16 audio.
pub const TRIM_FRAME_BYTES: usize = 640;

/// Only silent runs longer than this many frames (about 600 ms) are
/// collapsed; shorter pauses between words are left intact.
pub const TRIM_MIN_RUN_FRAMES: usize = 30;

/// A collapsed run keeps this many silent frames on each side (about 100 ms
/// each) so that word onsets are not clipped.
pub const TRIM_KEEP_EACH_FRAMES: usize = 5;

/// Cursor marker injected into preview text so that the audio model knows
/// where to insert new dictation. A single character (U+2038 CARET), so that
/// the model cannot wrap inserted text inside a bracket pair.
pub const CURSOR_MARKER: &'static str = "‸";

/// Buffers shorter than this (512 bytes, 16 ms at 16 kHz) are treated as no
/// speech and never uploaded.
pub const MIN_UPLOAD_BYTES: usize = 512;

// ─── Frames and silence collapsing ───

/// Number of frames `pcm.chunks(TRIM_FRAME_BYTES)` yields for `len` bytes.
pub open spec fn frame_count_spec(len: nat) -> nat {
    if len % (TRIM_FRAME_BYTES as nat) == 0 {
        len / (TRIM_FRAME_BYTES as nat)
    } else {
        len / (TRIM_FRAME_BYTES as nat) + 1
    }
}

/// Byte offset where frame `f` starts, capped at the end of the buffer.
pub open spec fn frame_offset_spec(f: int, len: int) -> int {
    if f * (TRIM_FRAME_BYTES as int) <= len {
        f * (TRIM_FRAME_BYTES as int)
    } else {
        len
    }
}

/// The bytes of frames `a..b` of `pcm`.
pub open spec fn frames_bytes(pcm: Seq<u8>, a: int, b: int) -> Seq<u8> {
    pcm.subrange(frame_offset_spec(a, pcm.len() as int), frame_offset_spec(b, pcm.len() as int))
}

/// End (exclusive) of the run of silent frames that starts at `i`.
pub open spec fn run_end(silent: Seq<bool>, i: int) -> int
    decreases silent.len() - i,
{
    if i < 0 || i >= silent.len() || !silent[i] {
        i
    } else {
        run_end(silent, i + 1)
    }
}

/// A run of silent frames is at least as long as its first frame.
pub proof fn lemma_run_end_bounds(silent: Seq<bool>, i: int)
    requires
        0 <= i <= silent.len(),
    ensures
        i <= run_end(silent, i) <= silent.len(),
        i < silent.len() && silent[i] ==> i < run_end(silent, i),
        forall|k: int| i <= k < run_end(silent, i) ==> #[trigger] silent[k],
        run_end(silent, i) < silent.len() ==> !silent[run_end(silent, i)],
    decreases silent.len() - i,
{
    if i < silent.len() && silent[i] {
        lemma_run_end_bounds(silent, i + 1);
    }
}

/// The bytes kept of frames `i..` of `pcm`: non-silent frames and silent
/// runs of at most `TRIM_MIN_RUN_FRAMES` frames are kept whole; a longer run
/// keeps only its first and last `TRIM_KEEP_EACH_FRAMES` frames.
pub open spec fn collapse_from(pcm: Seq<u8>, silent: Seq<bool>, i: int) -> Seq<u8>
    decreases silent.len() - i,
{
    if i < 0 || i >= silent.len() {
        Seq::empty()
    } else if !silent[i] {
        frames_bytes(pcm, i, i + 1) + collapse_from(pcm, silent, i + 1)
    } else {
        let e = run_end(silent, i);
        proof {
            lemma_run_end_bounds(silent, i);
        }
        (if e - i > TRIM_MIN_RUN_FRAMES as int {
            frames_bytes(pcm, i, i + TRIM_KEEP_EACH_FRAMES as int) + frames_bytes(
                pcm,
                e - TRIM_KEEP_EACH_FRAMES as int,
                e,
            )
        } else {
            frames_bytes(pcm, i, e)
        }) + collapse_from(pcm, silent, e)
    }
}

/// The PCM with its long silent gaps collapsed, given which frames are silent.
pub open spec fn collapse_long_silence_spec(pcm: Seq<u8>, silent: Seq<bool>) -> Seq<u8> {
    collapse_from(pcm, silent, 0)
}

/// Number of `TRIM_FRAME_BYTES` frames in `len` bytes (the last one may be
/// short).
pub fn frame_count(len: usize) -> (r: usize)
    ensures
        r == frame_count_spec(len as nat),
{
    if len % TRIM_FRAME_BYTES == 0 {
        len / TRIM_FRAME_BYTES
    } else {
        len / TRIM_FRAME_BYTES + 1
    }
}

fn frame_offset(f: usize, len: usize) -> (r: usize)
    ensures
        r == frame_offset_spec(f as int, len as int),
{
    if f <= len / TRIM_FRAME_BYTES {
        proof {
            assert(f * 640 <= (len / 640) * 640) by (nonlinear_arith)
                requires
                    f <= len / 640,
            ;
        }
        f * TRIM_FRAME_BYTES
    } else {
        proof {
            assert(f * 640 > len) by (nonlinear_arith)
                requires
                    f > len / 640,
            ;
        }
        len
    }
}

proof fn lemma_frame_offset_monotone(a: int, b: int, len: int)
    requires
        0 <= a <= b,
        0 <= len,
    ensures
        0 <= frame_offset_spec(a, len) <= frame_offset_spec(b, len) <= len,
{
    assert(a * 640 <= b * 640) by (nonlinear_arith)
        requires
            a <= b,
    ;
    assert(0 <= a * 640) by (nonlinear_arith)
        requires
            0 <= a,
    ;
}

/// Appends `src[from..to]` to `out`.
pub fn push_byte_range(out: &mut Vec<u8>, src: &[u8], from: usize, to: usize)
    requires
        from <= to <= src@.len(),
    ensures
        final(out)@ == old(out)@ + src@.subrange(from as int, to as int),
{
    let mut k = from;
    while k < to
        invariant
            from <= k <= to <= src@.len(),
            out@ == old(out)@ + src@.subrange(from as int, k as int),
        decreases to - k,
    {
        out.push(src[k]);
        assert(src@.subrange(from as int, k + 1) == src@.subrange(from as int, k as int).push(
            src@[k as int],
        ));
        k = k + 1;
    }
}

fn push_frames(out: &mut Vec<u8>, pcm: &[u8], a: usize, b: usize)
    requires
        a <= b,
    ensures
        final(out)@ == old(out)@ + frames_bytes(pcm@, a as int, b as int),
{
    let from = frame_offset(a, pcm.len());
    let to = frame_offset(b, pcm.len());
    proof {
        lemma_frame_offset_monotone(a as int, b as int, pcm@.len() as int);
    }
    push_byte_range(out, pcm, from, to);
}

/// Collapses long silent gaps in 16 kHz mono i16 PCM. `silent[i]` says
/// whether frame `i` (`TRIM_FRAME_BYTES` bytes, the last one possibly short)
/// is silence. Short pauses are preserved; a silent run longer than
/// `TRIM_MIN_RUN_FRAMES` frames is shortened to its first and last
/// `TRIM_KEEP_EACH_FRAMES` frames. One pass over the frames.
pub fn trim_long_silence(pcm: &[u8], silent: &[bool]) -> (r: Vec<u8>)
    requires
        silent@.len() == frame_count_spec(pcm@.len()),
    ensures
        r@ == collapse_long_silence_spec(pcm@, silent@),
{
    let n = silent.len();
    let mut out: Vec<u8> = Vec::new();
    let mut i: usize = 0;
    while i < n
        invariant
            n == silent@.len(),
            i <= n,
            out@ + collapse_from(pcm@, silent@, i as int) == collapse_from(pcm@, silent@, 0),
        decreases n - i,
    {
        if silent[i] {
            let start = i;
            proof {
                lemma_run_end_bounds(silent@, start as int);
            }
            while i < n && silent[i]
                invariant
                    n == silent@.len(),
                    start <= i <= n,
                    start < n,
                    silent@[start as int],
                    run_end(silent@, i as int) == run_end(silent@, start as int),
                    forall|k: int| start <= k < i ==> #[trigger] silent@[k],
                decreases n - i,
            {
                i = i + 1;
            }
            proof {
                lemma_run_end_bounds(silent@, start as int);
                assert(run_end(silent@, i as int) == i);
            }
            let ghost before = out@;
            let run = i - start;
            if run > TRIM_MIN_RUN_FRAMES {
                push_frames(&mut out, pcm, start, start + TRIM_KEEP_EACH_FRAMES);
                push_frames(&mut out, pcm, i - TRIM_KEEP_EACH_FRAMES, i);
            } else {
                push_frames(&mut out, pcm, start, i);
            }
            assert(out@ + collapse_from(pcm@, silent@, i as int) == before + collapse_from(
                pcm@,
                silent@,
                start as int,
            ));
        } else {
            let ghost before = out@;
            push_frames(&mut out, pcm, i, i + 1);
            assert(out@ + collapse_from(pcm@, silent@, i + 1) == before + collapse_from(
                pcm@,
                silent@,
                i as int,
            ));
            i = i + 1;
        }
    }
    out
}

// ─── WAV container ───

/// Little-endian bytes of a `u32`.
pub open spec fn le_u32(x: u32) -> Seq<u8> {
    seq![
        (x % 256) as u8,
        ((x / 256) % 256) as u8,
        ((x / 65536) % 256) as u8,
        ((x / 16777216) % 256) as u8,
    ]
}

/// Little-endian bytes of a `u16`.
pub open spec fn le_u16(x: u16) -> Seq<u8> {
    seq![(x % 256) as u8, (x / 256) as u8]
}

/// The four ASCII bytes of a chunk tag.
pub open spec fn tag_bytes(a: u8, b: u8, c: u8, d: u8) -> Seq<u8> {
    seq![a, b, c, d]
}

/// `RIFF`
pub open spec fn riff_tag() -> Seq<u8> {
    tag_bytes(0x52, 0x49, 0x46, 0x46)
}

/// `WAVE`
pub open spec fn wave_tag() -> Seq<u8> {
    tag_bytes(0x57, 0x41, 0x56, 0x45)
}

/// `fmt `
pub open spec fn fmt_tag() -> Seq<u8> {
    tag_bytes(0x66, 0x6d, 0x74, 0x20)
}

/// `data`
pub open spec fn data_tag() -> Seq<u8> {
    tag_bytes(0x64, 0x61, 0x74, 0x61)
}

/// The 44-byte header of a mono 16-bit PCM WAV file holding `data_size`
/// bytes of samples at `sample_rate`.
pub open spec fn wav_header(data_size: u32, sample_rate: u32) -> Seq<u8> {
    riff_tag() + le_u32((36 + data_size) as u32) + wave_tag() + fmt_tag() + le_u32(16) + le_u16(1)
        + le_u16(1) + le_u32(sample_rate) + le_u32((sample_rate * 2) as u32) + le_u16(2) + le_u16(
        16,
    ) + data_tag() + le_u32(data_size)
}

/// A WAV file: the header followed by the PCM payload.
pub open spec fn wav_file(pcm: Seq<u8>, sample_rate: u32) -> Seq<u8> {
    wav_header(pcm.len() as u32, sample_rate) + pcm
}

fn push_le_u32(out: &mut Vec<u8>, x: u32)
    ensures
        final(out)@ == old(out)@ + le_u32(x),
{
    out.push((x % 256) as u8);
    out.push(((x / 256) % 256) as u8);
    out.push(((x / 65536) % 256) as u8);
    out.push(((x / 16777216) % 256) as u8);
}

fn push_le_u16(out: &mut Vec<u8>, x: u16)
    ensures
        final(out)@ == old(out)@ + le_u16(x),
{
    out.push((x % 256) as u8);
    out.push((x / 256) as u8);
}

fn push_tag(out: &mut Vec<u8>, a: u8, b: u8, c: u8, d: u8)
    ensures
        final(out)@ == old(out)@ + tag_bytes(a, b, c, d),
{
    out.push(a);
    out.push(b);
    out.push(c);
    out.push(d);
}

/// Wraps raw PCM i16 LE mono samples in a minimal RIFF WAV container: a
/// 44-byte header followed by the PCM payload. The size fields hold the
/// payload length truncated to 32 bits.
pub fn pcm_to_wav(pcm: &[u8], sample_rate: u32) -> (r: Vec<u8>)
    requires
        (pcm@.len() as u32) + 36 <= u32::MAX,
        sample_rate * 16 <= u32::MAX,
    ensures
        r@ == wav_file(pcm@, sample_rate),
{
    let num_channels: u16 = 1;
    let bits_per_sample: u16 = 16;
    let byte_rate = sample_rate * num_channels as u32 * bits_per_sample as u32 / 8;
    let block_align = num_channels * bits_per_sample / 8;
    let data_size = pcm.len() as u32;
    let mut wav: Vec<u8> = Vec::new();
    push_tag(&mut wav, 0x52, 0x49, 0x46, 0x46);
    push_le_u32(&mut wav, 36u32 + data_size);
    push_tag(&mut wav, 0x57, 0x41, 0x56, 0x45);
    push_tag(&mut wav, 0x66, 0x6d, 0x74, 0x20);
    push_le_u32(&mut wav, 16u32);
    push_le_u16(&mut wav, 1u16);
    push_le_u16(&mut wav, num_channels);
    push_le_u32(&mut wav, sample_rate);
    push_le_u32(&mut wav, byte_rate);
    push_le_u16(&mut wav, block_align);
    push_le_u16(&mut wav, bits_per_sample);
    push_tag(&mut wav, 0x64, 0x61, 0x74, 0x61);
    push_le_u32(&mut wav, data_size);
    assert(wav@ == wav_header(data_size, sample_rate));
    push_byte_range(&mut wav, pcm, 0, pcm.len());
    assert(pcm@.subrange(0, pcm@.len() as int) == pcm@);
    wav
}

// ─── Cursor marker ───

/// Position at which the marker goes: the offset, or the end of the text.
pub open spec fn marker_position(len: nat, offset: usize) -> int {
    if offset as nat <= len {
        offset as int
    } else {
        len as int
    }
}

/// `text` with the cursor marker inserted at a Unicode-scalar offset.
pub open spec fn with_cursor_marker(text: Seq<char>, offset: usize) -> Seq<char> {
    let p = marker_position(text.len(), offset);
    text.take(p) + CURSOR_MARKER@ + text.skip(p)
}

/// Inserts `CURSOR_MARKER` into `text` at a Unicode-scalar `offset`. An
/// offset at or beyond the end (`usize::MAX` included) places it at the end.
pub fn insert_cursor_marker(text: &str, offset: usize) -> (r: String)
    ensures
        r@ == with_cursor_marker(text@, offset),
{
    let chars = chars_of(text);
    let pos = if offset <= chars.len() {
        offset
    } else {
        chars.len()
    };
    let mut out = String::new();
    push_chars(&mut out, &chars, 0, pos);
    out.append(CURSOR_MARKER);
    push_chars(&mut out, &chars, pos, chars.len());
    assert(chars@.subrange(0, pos as int) == text@.take(pos as int));
    assert(chars@.subrange(pos as int, chars@.len() as int) == text@.skip(pos as int));
    out
}

} // verus!

verus! {

// ─── Laws ───

/// The value that four little-endian bytes encode.
pub open spec fn decode_le_u32(b: Seq<u8>) -> int {
    b[0] + 256 * b[1] + 65536 * b[2] + 16777216 * b[3]
}

/// Decoding the little-endian bytes of `x` gives `x` back.
pub proof fn law_le_u32_roundtrip(x: u32)
    ensures
        le_u32(x).len() == 4,
        decode_le_u32(le_u32(x)) == x,
{
    let b = le_u32(x);
    assert(b[0] == x % 256);
    assert(b[1] == (x / 256) % 256);
    assert(b[2] == (x / 65536) % 256);
    assert(b[3] == (x / 16777216) % 256);
    assert(x % 256 + 256 * ((x / 256) % 256) + 65536 * ((x / 65536) % 256) + 16777216 * ((x
        / 16777216) % 256) == x) by (nonlinear_arith);
}

/// A WAV file is a 44-byte header followed by the PCM: `RIFF`, the RIFF
/// chunk size (the file length minus 8), `WAVE`, the `fmt ` chunk, then
/// `data` and the payload size, then the payload.
pub proof fn law_wav_layout(pcm: Seq<u8>, sample_rate: u32)
    requires
        pcm.len() + 36 <= u32::MAX,
    ensures
        wav_file(pcm, sample_rate).len() == 44 + pcm.len(),
        wav_file(pcm, sample_rate).subrange(0, 4) == riff_tag(),
        decode_le_u32(wav_file(pcm, sample_rate).subrange(4, 8)) == wav_file(
            pcm,
            sample_rate,
        ).len() - 8,
        wav_file(pcm, sample_rate).subrange(8, 12) == wave_tag(),
        wav_file(pcm, sample_rate).subrange(12, 16) == fmt_tag(),
        wav_file(pcm, sample_rate).subrange(36, 40) == data_tag(),
        decode_le_u32(wav_file(pcm, sample_rate).subrange(40, 44)) == pcm.len(),
        wav_file(pcm, sample_rate).subrange(44, 44 + pcm.len() as int) == pcm,
{
    let n = pcm.len() as u32;
    let h = wav_header(n, sample_rate);
    let w = wav_file(pcm, sample_rate);
    law_le_u32_roundtrip((36 + n) as u32);
    law_le_u32_roundtrip(n);
    assert(h.len() == 44);
    assert(w.subrange(0, 4) == riff_tag());
    assert(w.subrange(4, 8) == le_u32((36 + n) as u32));
    assert(w.subrange(8, 12) == wave_tag());
    assert(w.subrange(12, 16) == fmt_tag());
    assert(w.subrange(36, 40) == data_tag());
    assert(w.subrange(40, 44) == le_u32(n));
    assert(w.subrange(44, 44 + pcm.len() as int) == pcm);
}

/// Frame offsets run from the start to the end of the buffer.
proof fn lemma_frame_offset_ends(len: nat)
    ensures
        frame_offset_spec(0, len as int) == 0,
        frame_offset_spec(frame_count_spec(len) as int, len as int) == len,
{
    let n = frame_count_spec(len);
    assert(n * 640 >= len) by (nonlinear_arith)
        requires
            n == (if len % 640 == 0 {
                len / 640
            } else {
                len / 640 + 1
            }),
    ;
}

/// Consecutive frame ranges join into one.
proof fn lemma_frames_join(pcm: Seq<u8>, a: int, b: int, c: int)
    requires
        0 <= a <= b <= c,
    ensures
        frames_bytes(pcm, a, b) + frames_bytes(pcm, b, c) == frames_bytes(pcm, a, c),
{
    lemma_frame_offset_monotone(a, b, pcm.len() as int);
    lemma_frame_offset_monotone(b, c, pcm.len() as int);
    let x = frame_offset_spec(a, pcm.len() as int);
    let y = frame_offset_spec(b, pcm.len() as int);
    let z = frame_offset_spec(c, pcm.len() as int);
    assert(pcm.subrange(x, y) + pcm.subrange(y, z) == pcm.subrange(x, z));
}

/// Collapsing frames `i..` keeps at most their bytes, and keeps all of them
/// when no silent run from `i` on is longer than `TRIM_MIN_RUN_FRAMES`.
proof fn lemma_collapse_from(pcm: Seq<u8>, silent: Seq<bool>, i: int)
    requires
        0 <= i <= silent.len(),
    ensures
        collapse_from(pcm, silent, i).len() <= frames_bytes(pcm, i, silent.len() as int).len(),
        (forall|k: int| i <= k < silent.len() ==> #[trigger] run_end(silent, k) - k
            <= TRIM_MIN_RUN_FRAMES) ==> collapse_from(pcm, silent, i) == frames_bytes(
            pcm,
            i,
            silent.len() as int,
        ),
    decreases silent.len() - i,
{
    let n = silent.len() as int;
    if i < n {
        lemma_run_end_bounds(silent, i);
        let e = if silent[i] {
            run_end(silent, i)
        } else {
            i + 1
        };
        lemma_collapse_from(pcm, silent, e);
        lemma_frames_join(pcm, i, e, n);
        if silent[i] && e - i > TRIM_MIN_RUN_FRAMES as int {
            lemma_frames_join(pcm, i, i + 5, e - 5);
            lemma_frames_join(pcm, i, e - 5, e);
            lemma_frame_offset_monotone(i + 5, e - 5, pcm.len() as int);
        }
    } else {
        lemma_frame_offset_monotone(i, n, pcm.len() as int);
    }
}

/// Collapsing silence never lengthens the audio, and leaves it unchanged when
/// it holds no silent run longer than `TRIM_MIN_RUN_FRAMES` frames: short
/// pauses are preserved.
pub proof fn law_collapse_keeps_short_pauses(pcm: Seq<u8>, silent: Seq<bool>)
    requires
        silent.len() == frame_count_spec(pcm.len()),
    ensures
        collapse_long_silence_spec(pcm, silent).len() <= pcm.len(),
        (forall|k: int| 0 <= k < silent.len() ==> #[trigger] run_end(silent, k) - k
            <= TRIM_MIN_RUN_FRAMES) ==> collapse_long_silence_spec(pcm, silent) == pcm,
{
    lemma_collapse_from(pcm, silent, 0);
    lemma_frame_offset_ends(pcm.len());
    assert(frames_bytes(pcm, 0, silent.len() as int) == pcm);
}

/// A silent run longer than `TRIM_MIN_RUN_FRAMES` frames that starts at `i`
/// keeps exactly its first and last `TRIM_KEEP_EACH_FRAMES` frames.
pub proof fn law_long_run_keeps_padding(pcm: Seq<u8>, silent: Seq<bool>, i: int)
    requires
        0 <= i < silent.len(),
        silent[i],
        run_end(silent, i) - i > TRIM_MIN_RUN_FRAMES,
    ensures
        collapse_from(pcm, silent, i) == frames_bytes(pcm, i, i + TRIM_KEEP_EACH_FRAMES as int)
            + frames_bytes(
            pcm,
            run_end(silent, i) - TRIM_KEEP_EACH_FRAMES as int,
            run_end(silent, i),
        ) + collapse_from(pcm, silent, run_end(silent, i)),
{
}

/// The marker stands at the requested offset, or at the end when the offset
/// lies beyond the text; taking it out gives the text back.
pub proof fn law_cursor_marker_roundtrip(text: Seq<char>, offset: usize)
    ensures
        CURSOR_MARKER@.len() == 1,
        with_cursor_marker(text, offset).len() == text.len() + 1,
        with_cursor_marker(text, offset)[marker_position(text.len(), offset)] == CURSOR_MARKER@[0],
        with_cursor_marker(text, offset).remove(marker_position(text.len(), offset)) == text,
        offset >= text.len() ==> marker_position(text.len(), offset) == text.len(),
{
    reveal_strlit("‸");
    assert(CURSOR_MARKER@.len() == 1);
    let p = marker_position(text.len(), offset);
    let m = with_cursor_marker(text, offset);
    assert(m[p] == CURSOR_MARKER@[0]);
    assert(m.remove(p) == text.take(p) + text.skip(p));
    assert(text.take(p) + text.skip(p) == text);
}

// ─── Trimming twice ───

/// The silence flags that a per-frame classifier gives the frames of `pcm`.
pub open spec fn frame_flags(pcm: Seq<u8>, classify: spec_fn(Seq<u8>) -> bool) -> Seq<bool> {
    Seq::new(frame_count_spec(pcm.len()), |i: int| classify(frames_bytes(pcm, i, i + 1)))
}

/// The frame count is the number of 640-byte frames, rounded up.
proof fn lemma_frame_count(x: nat)
    ensures
        x == 0 ==> frame_count_spec(x) == 0,
        x > 0 ==> 640 * (frame_count_spec(x) - 1) < x <= 640 * frame_count_spec(x),
{
    let k = frame_count_spec(x);
    assert(x == 640 * (x / 640) + x % 640) by (nonlinear_arith);
    assert(0 <= x % 640 < 640) by (nonlinear_arith);
}

/// A length between `640 * (k - 1)` (excluded) and `640 * k` holds `k`
/// frames.
proof fn lemma_frame_count_unique(x: nat, k: int)
    requires
        k >= 1,
        640 * (k - 1) < x <= 640 * k,
    ensures
        frame_count_spec(x) == k,
{
    lemma_frame_count(x);
    let c = frame_count_spec(x) as int;
    assert(c == k) by (nonlinear_arith)
        requires
            640 * (c - 1) < x <= 640 * c,
            640 * (k - 1) < x <= 640 * k,
    ;
}

/// Frames `m + a .. m + b` of `r` are frames `a .. b` of what follows its
/// first `m` full frames.
proof fn lemma_frames_shift(r: Seq<u8>, m: int, a: int, b: int)
    requires
        0 <= m,
        0 <= a <= b,
        640 * m <= r.len(),
    ensures
        frames_bytes(r, m + a, m + b) == frames_bytes(r.skip(640 * m), a, b),
{
    let t = r.skip(640 * m);
    assert(640 * (m + a) == 640 * m + 640 * a);
    assert(640 * (m + b) == 640 * m + 640 * b);
    lemma_frame_offset_monotone(a, b, t.len() as int);
    let x = frame_offset_spec(a, t.len() as int);
    let y = frame_offset_spec(b, t.len() as int);
    assert(frame_offset_spec(m + a, r.len() as int) == 640 * m + x);
    assert(frame_offset_spec(m + b, r.len() as int) == 640 * m + y);
    assert(r.subrange(640 * m + x, 640 * m + y) == t.subrange(x, y));
}

/// Frame `q` of frames `a .. b` of `pcm`, followed by anything when frame
/// `b` exists and by nothing otherwise, is frame `a + q` of `pcm`.
proof fn lemma_segment_frame(pcm: Seq<u8>, a: int, b: int, q: int, y: Seq<u8>)
    requires
        0 <= a,
        0 <= q < b - a,
        b <= frame_count_spec(pcm.len()),
        b < frame_count_spec(pcm.len()) || y.len() == 0,
    ensures
        frames_bytes(frames_bytes(pcm, a, b) + y, q, q + 1) == frames_bytes(pcm, a + q, a + q + 1),
{
    let n = frame_count_spec(pcm.len()) as int;
    let len = pcm.len() as int;
    lemma_frame_count(pcm.len());
    let x = frames_bytes(pcm, a, b);
    let z = x + y;
    assert(640 * (a + q + 1) <= 640 * b) by (nonlinear_arith)
        requires
            a + q + 1 <= b,
    ;
    assert(640 * a + 640 * q == 640 * (a + q)) by (nonlinear_arith);
    assert(640 * (q + 1) == 640 * q + 640);
    assert(640 * (a + q + 1) == 640 * (a + q) + 640);
    assert(640 * a <= 640 * (a + q)) by (nonlinear_arith)
        requires
            0 <= q,
    ;
    if b < n {
        assert(640 * b <= 640 * (n - 1)) by (nonlinear_arith)
            requires
                b <= n - 1,
        ;
        assert(frame_offset_spec(b, len) == 640 * b);
        assert(frame_offset_spec(a + q + 1, len) == 640 * (a + q + 1));
        assert(x.len() == 640 * b - 640 * a);
        assert(frame_offset_spec(q, z.len() as int) == 640 * q);
        assert(frame_offset_spec(q + 1, z.len() as int) == 640 * (q + 1));
        assert(z.subrange(640 * q, 640 * (q + 1)) == pcm.subrange(640 * (a + q), 640 * (a + q + 1)));
    } else {
        assert(z == x);
        assert(frame_offset_spec(b, len) == len);
        assert(640 * (a + q) <= len) by (nonlinear_arith)
            requires
                a + q <= n - 1,
                640 * (n - 1) < len,
        ;
        assert(x.len() == len - 640 * a);
        assert(frame_offset_spec(q, z.len() as int) == 640 * q);
        assert(frame_offset_spec(q + 1, z.len() as int) == frame_offset_spec(a + q + 1, len) - 640
            * a);
        assert(z.subrange(640 * q, frame_offset_spec(q + 1, z.len() as int)) == pcm.subrange(
            640 * (a + q),
            frame_offset_spec(a + q + 1, len),
        ));
    }
}

/// A run of flags that are all set from `m` to `p`, followed by a clear flag
/// or the end, ends at `p`.
proof fn lemma_run_end_exact(f: Seq<bool>, m: int, p: int)
    requires
        0 <= m <= p <= f.len(),
        forall|k: int| m <= k < p ==> #[trigger] f[k],
        p == f.len() || !f[p],
    ensures
        run_end(f, m) == p,
    decreases p - m,
{
    if m < p {
        lemma_run_end_exact(f, m + 1, p);
    }
}

/// Frames `a .. b` of `pcm` take `640 * (b - a)` bytes, except that the
/// last frame of `pcm` may be short.
proof fn lemma_segment_len(pcm: Seq<u8>, a: int, b: int)
    requires
        0 <= a < b <= frame_count_spec(pcm.len()),
    ensures
        b < frame_count_spec(pcm.len()) ==> frames_bytes(pcm, a, b).len() == 640 * (b - a),
        b == frame_count_spec(pcm.len()) ==> 640 * (b - a - 1) < frames_bytes(pcm, a, b).len()
            <= 640 * (b - a),
{
    let n = frame_count_spec(pcm.len()) as int;
    let len = pcm.len() as int;
    lemma_frame_count(pcm.len());
    assert(640 * a <= 640 * (n - 1)) by (nonlinear_arith)
        requires
            a <= n - 1,
    ;
    assert(640 * (b - a) == 640 * b - 640 * a);
    assert(640 * (b - a - 1) == 640 * b - 640 * a - 640);
    if b < n {
        assert(640 * b <= 640 * (n - 1)) by (nonlinear_arith)
            requires
                b <= n - 1,
        ;
    }
}

/// Collapsing the already collapsed audio from output frame `m` on gives
/// back what collapsing `pcm` from frame `i` on gave, when `r` holds that
/// result after `m` full frames and its flags come from the same
/// classifier.
proof fn lemma_trim_twice(
    pcm: Seq<u8>,
    classify: spec_fn(Seq<u8>) -> bool,
    r: Seq<u8>,
    i: int,
    m: int,
)
    requires
        0 <= i <= frame_count_spec(pcm.len()),
        0 <= m,
        640 * m <= r.len(),
        r.skip(640 * m) == collapse_from(pcm, frame_flags(pcm, classify), i),
    ensures
        collapse_from(r, frame_flags(r, classify), m) == collapse_from(
            pcm,
            frame_flags(pcm, classify),
            i,
        ),
    decreases frame_count_spec(pcm.len()) - i,
{
    let silent = frame_flags(pcm, classify);
    let f = frame_flags(r, classify);
    let n = silent.len() as int;
    let big_r = collapse_from(pcm, silent, i);
    lemma_frame_count(pcm.len());
    // The frames of `r` from `m` on are the frames of `big_r`.
    assert(r.len() == 640 * m + big_r.len());
    if big_r.len() == 0 {
        lemma_frame_count(r.len());
        if m >= 1 {
            lemma_frame_count_unique(r.len(), m);
        }
        assert(f.len() == m);
    } else {
        lemma_frame_count(big_r.len());
        let c = frame_count_spec(big_r.len()) as int;
        assert(640 * (m + c - 1) < r.len() <= 640 * (m + c)) by (nonlinear_arith)
            requires
                640 * (c - 1) < big_r.len() <= 640 * c,
                r.len() == 640 * m + big_r.len(),
        ;
        lemma_frame_count_unique(r.len(), m + c);
        assert(f.len() == m + c);
    }
    if i == n {
        assert(big_r.len() == 0);
        return ;
    }
    if !silent[i] {
        let x = frames_bytes(pcm, i, i + 1);
        let rest = collapse_from(pcm, silent, i + 1);
        assert(big_r == x + rest);
        lemma_segment_len(pcm, i, i + 1);
        if i + 1 == n {
            assert(rest.len() == 0);
        }
        lemma_segment_frame(pcm, i, i + 1, 0, rest);
        lemma_frames_shift(r, m, 0, 1);
        assert(f[m] == classify(frames_bytes(r, m, m + 1)));
        assert(frames_bytes(r, m, m + 1) == x);
        assert(!f[m]);
        if i + 1 < n {
            assert(x.len() == 640);
            assert(640 * (m + 1) == 640 * m + 640);
            assert(r.skip(640 * (m + 1)) =~= r.skip(640 * m).skip(640));
            assert((x + rest).skip(640) =~= rest);
            assert(r.skip(640 * (m + 1)) == rest);
            lemma_trim_twice(pcm, classify, r, i + 1, m + 1);
        } else {
            assert(big_r == x);
            lemma_frame_count_unique(big_r.len(), 1);
            assert(collapse_from(r, f, m + 1) == Seq::<u8>::empty());
        }
        assert(collapse_from(r, f, m) == frames_bytes(r, m, m + 1) + collapse_from(r, f, m + 1));
    } else {
        lemma_run_end_bounds(silent, i);
        let e = run_end(silent, i);
        let rest = collapse_from(pcm, silent, e);
        if e == n {
            assert(rest.len() == 0);
        } else {
            assert(!silent[e]);
            assert(rest == frames_bytes(pcm, e, e + 1) + collapse_from(pcm, silent, e + 1));
            lemma_segment_len(pcm, e, e + 1);
        }
        let long = e - i > 30;
        let tp = if long {
            10int
        } else {
            e - i
        };
        let seg = if long {
            frames_bytes(pcm, i, i + 5) + frames_bytes(pcm, e - 5, e)
        } else {
            frames_bytes(pcm, i, e)
        };
        assert(big_r == seg + rest);
        // Every frame of the kept segment is silent.
        assert forall|q: int| 0 <= q < tp implies #[trigger] frames_bytes(big_r, q, q + 1)
            == frames_bytes(pcm, (if long && q >= 5 {
            e - 10 + q
        } else {
            i + q
        }), (if long && q >= 5 {
            e - 10 + q
        } else {
            i + q
        }) + 1) by {
            if long {
                let a = frames_bytes(pcm, i, i + 5);
                let b = frames_bytes(pcm, e - 5, e);
                assert(big_r == a + (b + rest));
                lemma_segment_len(pcm, i, i + 5);
                if q < 5 {
                    lemma_segment_frame(pcm, i, i + 5, q, b + rest);
                } else {
                    assert(big_r.skip(3200int) == b + rest);
                    lemma_frames_shift(big_r, 5, q - 5, q - 4);
                    lemma_segment_frame(pcm, e - 5, e, q - 5, rest);
                }
            } else {
                lemma_segment_frame(pcm, i, e, q, rest);
            }
        }
        // The segment's length, and the frame that follows it.
        if long {
            lemma_segment_len(pcm, i, i + 5);
            lemma_segment_len(pcm, e - 5, e);
        } else {
            lemma_segment_len(pcm, i, e);
        }
        assert(e < n ==> seg.len() == 640 * tp);
        assert(e == n ==> 640 * (tp - 1) < seg.len() <= 640 * tp);
        if e < n {
            assert(big_r.skip(640 * tp) == rest);
            lemma_frames_shift(big_r, tp, 0, 1);
            lemma_segment_frame(pcm, e, e + 1, 0, collapse_from(pcm, silent, e + 1));
            assert(frames_bytes(big_r, tp, tp + 1) == frames_bytes(pcm, e, e + 1));
        } else {
            lemma_frame_count_unique(big_r.len(), tp);
        }
        assert forall|k: int| m <= k < m + tp implies #[trigger] f[k] by {
            let q = k - m;
            lemma_frames_shift(r, m, q, q + 1);
            assert(frames_bytes(big_r, q, q + 1) == frames_bytes(big_r, q, q + 1));
            let src = if long && q >= 5 {
                e - 10 + q
            } else {
                i + q
            };
            assert(silent[src]);
            assert(f[k] == classify(frames_bytes(r, k, k + 1)));
        }
        if e < n {
            lemma_frames_shift(r, m, tp, tp + 1);
            assert(f[m + tp] == classify(frames_bytes(r, m + tp, m + tp + 1)));
            assert(!f[m + tp]);
        }
        lemma_run_end_exact(f, m, m + tp);
        lemma_frames_shift(r, m, 0, tp);
        assert(frame_offset_spec(tp, big_r.len() as int) == seg.len());
        assert(frames_bytes(big_r, 0, tp) == seg);
        if e < n {
            assert(r.skip(640 * (m + tp)) == rest);
            lemma_trim_twice(pcm, classify, r, e, m + tp);
        } else {
            assert(collapse_from(r, f, m + tp) == Seq::<u8>::empty());
        }
        assert(collapse_from(r, f, m) == frames_bytes(r, m, m + tp) + collapse_from(r, f, m + tp));
    }
}

/// Trimming silence from a recording whose silence was already trimmed
/// changes nothing, when every frame is judged silent or not by the same
/// per-frame classifier: no run of more than `TRIM_MIN_RUN_FRAMES` silent
/// frames is left, and the kept frames line up with the frames of the
/// result.
pub proof fn law_trim_is_idempotent(pcm: Seq<u8>, classify: spec_fn(Seq<u8>) -> bool)
    ensures
        ({
            let once = collapse_long_silence_spec(pcm, frame_flags(pcm, classify));
            collapse_long_silence_spec(once, frame_flags(once, classify)) == once
        }),
{
    let once = collapse_long_silence_spec(pcm, frame_flags(pcm, classify));
    assert(once.skip(0) == once);
    lemma_trim_twice(pcm, classify, once, 0, 0);
}

} // verus!
