//! The line encoder: turns a (mode, raster) pair into the exact ordered
//! sequence of audio tones that the SSTV protocol prescribes — VOX tone,
//! calibration header, VIS code, then the per-family scan-line structure.
//!
//! Frequencies are carried scaled by 255 (units of 1/255 Hz) so that the
//! pixel-to-frequency mapping `1500 + 800 * value / 255` is an exact integer;
//! durations are carried in picoseconds (see `modes`).

use vstd::prelude::*;

use crate::modes::SSTVMode;
use crate::modes::spec_is_scottie;
use crate::modes::spec_is_martin;
use crate::modes::spec_is_bw;
use crate::modes::spec_height;
use crate::modes::spec_width;
use crate::modes::spec_vis_code;
use crate::modes::spec_sync_ps;
use crate::modes::spec_separator_ps;
use crate::modes::spec_pixel_ps;
use crate::raster::Raster;

verus! {

/// Picoseconds per millisecond.
pub const MS_PS: u64 = 1_000_000_000;

/// 1200 Hz, scaled by 255: sync pulses and the VIS start/stop bits.
pub const FREQ_SYNC_255: u32 = 306_000;

/// 1500 Hz, scaled by 255: separators, porches, and a channel value of 0.
pub const FREQ_SEP_255: u32 = 382_500;

/// 1900 Hz, scaled by 255: the calibration leader.
pub const FREQ_LEADER_255: u32 = 484_500;

/// 1100 Hz, scaled by 255: a VIS bit of value 1.
pub const FREQ_VIS_ONE_255: u32 = 280_500;

/// 1300 Hz, scaled by 255: a VIS bit of value 0.
pub const FREQ_VIS_ZERO_255: u32 = 331_500;

/// 2300 Hz, scaled by 255: a channel value of 255.
pub const FREQ_COLOR_HIGH_255: u32 = 586_500;

/// One tone request: a frequency in units of 1/255 Hz and a duration in
/// picoseconds.
#[derive(Debug, Clone, Copy, PartialEq, Eq, Structural)]
pub struct Tone {
    pub freq_255: u32,
    pub dur_ps: u64,
}

/// Builds a tone from mathematical frequency and duration values.
pub open spec fn tone(f: int, d: int) -> Tone {
    Tone { freq_255: f as u32, dur_ps: d as u64 }
}

/// The frequency (scaled by 255) of a pixel channel value: the linear map
/// sending 0 to 1500 Hz and 255 to 2300 Hz.
pub open spec fn spec_pixel_freq_255(v: u8) -> int {
    255 * 1500 + 800 * v
}

/// Bit `b` (LSB first) of the VIS code `v`.
pub open spec fn spec_vis_bit(v: u8, b: int) -> bool {
    (v >> (b as u8)) & 1 == 1
}

/// The VOX tone: eight 100 ms tones announcing the transmission.
pub open spec fn spec_vox_tones() -> Seq<Tone> {
    seq![
        tone(FREQ_LEADER_255 as int, 100 * MS_PS as int),
        tone(FREQ_SEP_255 as int, 100 * MS_PS as int),
        tone(FREQ_LEADER_255 as int, 100 * MS_PS as int),
        tone(FREQ_SEP_255 as int, 100 * MS_PS as int),
        tone(FREQ_COLOR_HIGH_255 as int, 100 * MS_PS as int),
        tone(FREQ_SEP_255 as int, 100 * MS_PS as int),
        tone(FREQ_COLOR_HIGH_255 as int, 100 * MS_PS as int),
        tone(FREQ_SEP_255 as int, 100 * MS_PS as int),
    ]
}

/// The calibration header: leader, break, leader, VIS start bit.
pub open spec fn spec_calibration_tones() -> Seq<Tone> {
    seq![
        tone(FREQ_LEADER_255 as int, 300 * MS_PS as int),
        tone(FREQ_SYNC_255 as int, 10 * MS_PS as int),
        tone(FREQ_LEADER_255 as int, 300 * MS_PS as int),
        tone(FREQ_SYNC_255 as int, 30 * MS_PS as int),
    ]
}

/// The eight VIS data bits, least-significant first: 1100 Hz for a set bit,
/// 1300 Hz for a clear bit, 30 ms each.
pub open spec fn spec_vis_tones(v: u8) -> Seq<Tone> {
    Seq::new(
        8,
        |b: int|
            tone(
                if spec_vis_bit(v, b) {
                    FREQ_VIS_ONE_255 as int
                } else {
                    FREQ_VIS_ZERO_255 as int
                },
                30 * MS_PS as int,
            ),
    )
}

/// Everything before the scan lines: VOX, calibration, VIS bits, stop bit.
pub open spec fn spec_preamble_tones(m: SSTVMode) -> Seq<Tone> {
    spec_vox_tones() + spec_calibration_tones() + spec_vis_tones(spec_vis_code(m) as u8)
        + seq![tone(FREQ_SYNC_255 as int, 30 * MS_PS as int)]
}

/// One channel scan of row `y`: a pixel tone per column, left to right.
/// `c` is 0 for red, 1 for green, 2 for blue.
pub open spec fn spec_channel_scan(r: Raster, y: int, c: int, pix: int, w: int) -> Seq<Tone> {
    Seq::new(w as nat, |x: int| tone(spec_pixel_freq_255(r.spec_channel(x, y, c)), pix))
}

/// Scottie row: separator, green, separator, blue, trailing sync, porch, red.
pub open spec fn spec_scottie_row(m: SSTVMode, r: Raster, y: int) -> Seq<Tone> {
    let sep = spec_separator_ps(m);
    let sync = spec_sync_ps(m);
    let pix = spec_pixel_ps(m);
    let w = spec_width(m);
    seq![tone(FREQ_SEP_255 as int, sep)] + spec_channel_scan(r, y, 1, pix, w)
        + seq![tone(FREQ_SEP_255 as int, sep)] + spec_channel_scan(r, y, 2, pix, w)
        + seq![tone(FREQ_SYNC_255 as int, sync), tone(FREQ_SEP_255 as int, sep)]
        + spec_channel_scan(r, y, 0, pix, w)
}

/// Martin row: sync, porch, green, separator, blue, separator, red.
pub open spec fn spec_martin_row(m: SSTVMode, r: Raster, y: int) -> Seq<Tone> {
    let sep = spec_separator_ps(m);
    let sync = spec_sync_ps(m);
    let pix = spec_pixel_ps(m);
    let w = spec_width(m);
    seq![tone(FREQ_SYNC_255 as int, sync), tone(FREQ_SEP_255 as int, sep)]
        + spec_channel_scan(r, y, 1, pix, w) + seq![tone(FREQ_SEP_255 as int, sep)]
        + spec_channel_scan(r, y, 2, pix, w) + seq![tone(FREQ_SEP_255 as int, sep)]
        + spec_channel_scan(r, y, 0, pix, w)
}

/// Monochrome row: sync, then the green channel alone as a luminance proxy.
pub open spec fn spec_bw_row(m: SSTVMode, r: Raster, y: int) -> Seq<Tone> {
    seq![tone(FREQ_SYNC_255 as int, spec_sync_ps(m))]
        + spec_channel_scan(r, y, 1, spec_pixel_ps(m), spec_width(m))
}

/// Wraase row: sync, porch, then red, green, blue with no separators.
pub open spec fn spec_wraase_row(m: SSTVMode, r: Raster, y: int) -> Seq<Tone> {
    let pix = spec_pixel_ps(m);
    let w = spec_width(m);
    seq![tone(FREQ_SYNC_255 as int, spec_sync_ps(m)), tone(FREQ_SEP_255 as int, spec_separator_ps(m))]
        + spec_channel_scan(r, y, 0, pix, w) + spec_channel_scan(r, y, 1, pix, w)
        + spec_channel_scan(r, y, 2, pix, w)
}

/// The scan-line structure of row `y` in mode `m`.
pub open spec fn spec_row(m: SSTVMode, r: Raster, y: int) -> Seq<Tone> {
    if spec_is_scottie(m) {
        spec_scottie_row(m, r, y)
    } else if spec_is_martin(m) {
        spec_martin_row(m, r, y)
    } else if spec_is_bw(m) {
        spec_bw_row(m, r, y)
    } else {
        spec_wraase_row(m, r, y)
    }
}

/// The first `n` rows, in order.
pub open spec fn spec_rows(m: SSTVMode, r: Raster, n: int) -> Seq<Tone>
    decreases n,
{
    if n <= 0 {
        Seq::empty()
    } else {
        spec_rows(m, r, n - 1) + spec_row(m, r, n - 1)
    }
}

/// Scottie and Martin transmissions open with one extra sync pulse before
/// the first row.
pub open spec fn spec_leading_sync(m: SSTVMode) -> Seq<Tone> {
    if spec_is_scottie(m) || spec_is_martin(m) {
        seq![tone(FREQ_SYNC_255 as int, spec_sync_ps(m))]
    } else {
        Seq::empty()
    }
}

/// The complete transmission: preamble, leading sync where the family has
/// one, then every row.
pub open spec fn spec_encode_tones(m: SSTVMode, r: Raster) -> Seq<Tone> {
    spec_preamble_tones(m) + spec_leading_sync(m) + spec_rows(m, r, spec_height(m))
}

/// Bit `b` of a received VIS sequence: 1 where the tone is 1100 Hz.
pub open spec fn spec_vis_tone_bit(t: Seq<Tone>, b: int) -> u8 {
    if t[b].freq_255 == FREQ_VIS_ONE_255 {
        1
    } else {
        0
    }
}

/// The byte carried by eight VIS bit tones, least-significant first.
pub open spec fn spec_decode_vis(t: Seq<Tone>) -> u8 {
    spec_vis_tone_bit(t, 0) | (spec_vis_tone_bit(t, 1) << 1) | (spec_vis_tone_bit(t, 2) << 2)
        | (spec_vis_tone_bit(t, 3) << 3) | (spec_vis_tone_bit(t, 4) << 4)
        | (spec_vis_tone_bit(t, 5) << 5) | (spec_vis_tone_bit(t, 6) << 6)
        | (spec_vis_tone_bit(t, 7) << 7)
}

/// Reads the VIS code back out of its eight bit tones. Returns `None`
/// exactly when the sequence is not eight tones of 1100 Hz or 1300 Hz.
pub fn decode_vis_code(tones: &Vec<Tone>) -> (r: Option<u8>)
    ensures
        r is Some <==> (tones@.len() == 8 && forall|b: int|
            0 <= b < 8 ==> (tones@[b].freq_255 == FREQ_VIS_ONE_255
                || tones@[b].freq_255 == FREQ_VIS_ZERO_255)),
        r is Some ==> r->Some_0 == spec_decode_vis(tones@),
{
    if tones.len() != 8 {
        return None;
    }
    let f0 = tones[0].freq_255;
    let f1 = tones[1].freq_255;
    let f2 = tones[2].freq_255;
    let f3 = tones[3].freq_255;
    let f4 = tones[4].freq_255;
    let f5 = tones[5].freq_255;
    let f6 = tones[6].freq_255;
    let f7 = tones[7].freq_255;
    if (f0 == FREQ_VIS_ONE_255 || f0 == FREQ_VIS_ZERO_255)
        && (f1 == FREQ_VIS_ONE_255 || f1 == FREQ_VIS_ZERO_255)
        && (f2 == FREQ_VIS_ONE_255 || f2 == FREQ_VIS_ZERO_255)
        && (f3 == FREQ_VIS_ONE_255 || f3 == FREQ_VIS_ZERO_255)
        && (f4 == FREQ_VIS_ONE_255 || f4 == FREQ_VIS_ZERO_255)
        && (f5 == FREQ_VIS_ONE_255 || f5 == FREQ_VIS_ZERO_255)
        && (f6 == FREQ_VIS_ONE_255 || f6 == FREQ_VIS_ZERO_255)
        && (f7 == FREQ_VIS_ONE_255 || f7 == FREQ_VIS_ZERO_255) {
        let b0: u8 = if f0 == FREQ_VIS_ONE_255 { 1 } else { 0 };
        let b1: u8 = if f1 == FREQ_VIS_ONE_255 { 1 } else { 0 };
        let b2: u8 = if f2 == FREQ_VIS_ONE_255 { 1 } else { 0 };
        let b3: u8 = if f3 == FREQ_VIS_ONE_255 { 1 } else { 0 };
        let b4: u8 = if f4 == FREQ_VIS_ONE_255 { 1 } else { 0 };
        let b5: u8 = if f5 == FREQ_VIS_ONE_255 { 1 } else { 0 };
        let b6: u8 = if f6 == FREQ_VIS_ONE_255 { 1 } else { 0 };
        let b7: u8 = if f7 == FREQ_VIS_ONE_255 { 1 } else { 0 };
        Some(
            b0 | (b1 << 1u8) | (b2 << 2u8) | (b3 << 3u8) | (b4 << 4u8) | (b5 << 5u8) | (b6
                << 6u8) | (b7 << 7u8),
        )
    } else {
        None
    }
}

/// VIS round trip: decoding the eight bit tones of any VIS byte gives that
/// byte back, for all 256 byte values.
pub proof fn lemma_vis_round_trip(v: u8)
    ensures
        spec_decode_vis(spec_vis_tones(v)) == v,
{
    let t = spec_vis_tones(v);
    assert(forall|b: u8| ((v >> b) & 1) < 2) by (bit_vector);
    let x0 = spec_vis_tone_bit(t, 0);
    let x1 = spec_vis_tone_bit(t, 1);
    let x2 = spec_vis_tone_bit(t, 2);
    let x3 = spec_vis_tone_bit(t, 3);
    let x4 = spec_vis_tone_bit(t, 4);
    let x5 = spec_vis_tone_bit(t, 5);
    let x6 = spec_vis_tone_bit(t, 6);
    let x7 = spec_vis_tone_bit(t, 7);
    assert(x0 == (v >> 0u8) & 1 && x1 == (v >> 1u8) & 1 && x2 == (v >> 2u8) & 1 && x3 == (v
        >> 3u8) & 1 && x4 == (v >> 4u8) & 1 && x5 == (v >> 5u8) & 1 && x6 == (v >> 6u8) & 1
        && x7 == (v >> 7u8) & 1);
    assert(x0 | (x1 << 1u8) | (x2 << 2u8) | (x3 << 3u8) | (x4 << 4u8) | (x5 << 5u8) | (x6
        << 6u8) | (x7 << 7u8) == v) by (bit_vector)
        requires
            x0 == (v >> 0u8) & 1,
            x1 == (v >> 1u8) & 1,
            x2 == (v >> 2u8) & 1,
            x3 == (v >> 3u8) & 1,
            x4 == (v >> 4u8) & 1,
            x5 == (v >> 5u8) & 1,
            x6 == (v >> 6u8) & 1,
            x7 == (v >> 7u8) & 1,
    ;
}

/// The pixel-to-frequency map is bounded and monotonic: channel value 0
/// gives exactly 1500 Hz, 255 gives exactly 2300 Hz, and a larger channel
/// value never gives a lower frequency.
pub proof fn lemma_pixel_freq_monotonic(a: u8, b: u8)
    requires
        a <= b,
    ensures
        spec_pixel_freq_255(a) <= spec_pixel_freq_255(b),
        255 * 1500 <= spec_pixel_freq_255(a) <= 255 * 2300,
        spec_pixel_freq_255(0) == 255 * 1500,
        spec_pixel_freq_255(255) == 255 * 2300,
{
}

/// Encoding is a pure function of the mode and the raster: two encodings of
/// the same pair are tone-for-tone identical, with no hidden state.
pub proof fn lemma_encode_deterministic(m: SSTVMode, r: Raster, t1: Seq<Tone>, t2: Seq<Tone>)
    requires
        t1 == spec_encode_tones(m, r),
        t2 == spec_encode_tones(m, r),
    ensures
        t1 == t2,
{
}

/// A solid-black raster (all channel values 0) scans as 1500 Hz tones only:
/// every tone of every channel scan is exactly 1500 Hz.
pub proof fn lemma_black_raster_scans_low(m: SSTVMode, r: Raster, y: int, c: int)
    requires
        forall|x: int, yy: int, cc: int|
            0 <= x < r.spec_width() && 0 <= yy < r.spec_height() && 0 <= cc < 3
                ==> r.spec_channel(x, yy, cc) == 0,
        r.spec_width() == spec_width(m),
        r.spec_height() == spec_height(m),
        0 <= y < spec_height(m),
        0 <= c < 3,
    ensures
        forall|x: int|
            0 <= x < spec_width(m)
                ==> spec_channel_scan(r, y, c, spec_pixel_ps(m), spec_width(m))[x]
                    == tone(FREQ_SEP_255 as int, spec_pixel_ps(m)),
{
}

/// A solid-white raster (all channel values 255) scans as 2300 Hz tones
/// only: every tone of every channel scan is exactly 2300 Hz.
pub proof fn lemma_white_raster_scans_high(m: SSTVMode, r: Raster, y: int, c: int)
    requires
        forall|x: int, yy: int, cc: int|
            0 <= x < r.spec_width() && 0 <= yy < r.spec_height() && 0 <= cc < 3
                ==> r.spec_channel(x, yy, cc) == 255,
        r.spec_width() == spec_width(m),
        r.spec_height() == spec_height(m),
        0 <= y < spec_height(m),
        0 <= c < 3,
    ensures
        forall|x: int|
            0 <= x < spec_width(m)
                ==> spec_channel_scan(r, y, c, spec_pixel_ps(m), spec_width(m))[x]
                    == tone(FREQ_COLOR_HIGH_255 as int, spec_pixel_ps(m)),
{
}

fn push_tone(out: &mut Vec<Tone>, f: u32, d: u64)
    ensures
        final(out)@ == old(out)@.push((Tone { freq_255: f, dur_ps: d })),
{
    out.push(Tone { freq_255: f, dur_ps: d });
}

/// The pixel-to-frequency map, scaled by 255: 0 -> 1500 Hz, 255 -> 2300 Hz,
/// linear in between.
pub fn pixel_freq_255(v: u8) -> (f: u32)
    ensures
        f == spec_pixel_freq_255(v),
{
    382_500 + 800 * (v as u32)
}

fn emit_channel_scan(out: &mut Vec<Tone>, r: &Raster, y: usize, c: usize, pix: u64)
    requires
        r.wf(),
        y < r.spec_height(),
        c < 3,
    ensures
        final(out)@ == old(out)@ + spec_channel_scan(*r, y as int, c as int, pix as int, r.spec_width()),
{
    let ghost scan = spec_channel_scan(*r, y as int, c as int, pix as int, r.spec_width());
    let ghost out0 = out@;
    let w = r.width();
    for x in 0..w
        invariant
            out@ == out0 + scan.take(x as int),
            scan == spec_channel_scan(*r, y as int, c as int, pix as int, r.spec_width()),
            w == r.spec_width(),
            r.wf(),
            y < r.spec_height(),
            c < 3,
    {
        let v = r.get_channel(x, y, c);
        let f = pixel_freq_255(v);
        push_tone(out, f, pix);
        proof {
            assert(scan.take(x + 1) =~= scan.take(x as int).push(scan[x as int]));
        }
    }
    proof {
        assert(scan.take(w as int) =~= scan);
    }
}

fn emit_vis_tones(out: &mut Vec<Tone>, vis_code: u8)
    ensures
        final(out)@ == old(out)@ + spec_vis_tones(vis_code),
{
    let ghost vis = spec_vis_tones(vis_code);
    let ghost out0 = out@;
    for b in 0..8u8
        invariant
            out@ == out0 + vis.take(b as int),
            vis == spec_vis_tones(vis_code),
    {
        if (vis_code >> b) & 1 == 1 {
            push_tone(out, FREQ_VIS_ONE_255, 30 * MS_PS);
        } else {
            push_tone(out, FREQ_VIS_ZERO_255, 30 * MS_PS);
        }
        proof {
            assert(vis.take(b + 1) =~= vis.take(b as int).push(vis[b as int]));
        }
    }
    proof {
        assert(vis.take(8) =~= vis);
    }
}

/// The eight tones of a VIS code, least-significant bit first.
pub fn vis_code_tones(vis_code: u8) -> (out: Vec<Tone>)
    ensures
        out@ == spec_vis_tones(vis_code),
{
    let mut out: Vec<Tone> = Vec::new();
    emit_vis_tones(&mut out, vis_code);
    out
}

fn emit_scottie_row(out: &mut Vec<Tone>, mode: SSTVMode, r: &Raster, y: usize)
    requires
        r.wf(),
        r.spec_width() == spec_width(mode),
        y < r.spec_height(),
    ensures
        final(out)@ == old(out)@ + spec_scottie_row(mode, *r, y as int),
{
    let ghost out0 = out@;
    let sep = mode.separator_ps();
    let sync = mode.sync_ps();
    let pix = mode.pixel_ps();
    push_tone(out, FREQ_SEP_255, sep);
    emit_channel_scan(out, r, y, 1, pix);
    push_tone(out, FREQ_SEP_255, sep);
    emit_channel_scan(out, r, y, 2, pix);
    push_tone(out, FREQ_SYNC_255, sync);
    push_tone(out, FREQ_SEP_255, sep);
    emit_channel_scan(out, r, y, 0, pix);
    proof {
        assert(out@ =~= out0 + spec_scottie_row(mode, *r, y as int));
    }
}

fn emit_martin_row(out: &mut Vec<Tone>, mode: SSTVMode, r: &Raster, y: usize)
    requires
        r.wf(),
        r.spec_width() == spec_width(mode),
        y < r.spec_height(),
    ensures
        final(out)@ == old(out)@ + spec_martin_row(mode, *r, y as int),
{
    let ghost out0 = out@;
    let sep = mode.separator_ps();
    let sync = mode.sync_ps();
    let pix = mode.pixel_ps();
    push_tone(out, FREQ_SYNC_255, sync);
    push_tone(out, FREQ_SEP_255, sep);
    emit_channel_scan(out, r, y, 1, pix);
    push_tone(out, FREQ_SEP_255, sep);
    emit_channel_scan(out, r, y, 2, pix);
    push_tone(out, FREQ_SEP_255, sep);
    emit_channel_scan(out, r, y, 0, pix);
    proof {
        assert(out@ =~= out0 + spec_martin_row(mode, *r, y as int));
    }
}

fn emit_bw_row(out: &mut Vec<Tone>, mode: SSTVMode, r: &Raster, y: usize)
    requires
        r.wf(),
        r.spec_width() == spec_width(mode),
        y < r.spec_height(),
    ensures
        final(out)@ == old(out)@ + spec_bw_row(mode, *r, y as int),
{
    let ghost out0 = out@;
    let sync = mode.sync_ps();
    let pix = mode.pixel_ps();
    push_tone(out, FREQ_SYNC_255, sync);
    emit_channel_scan(out, r, y, 1, pix);
    proof {
        assert(out@ =~= out0 + spec_bw_row(mode, *r, y as int));
    }
}

fn emit_wraase_row(out: &mut Vec<Tone>, mode: SSTVMode, r: &Raster, y: usize)
    requires
        r.wf(),
        r.spec_width() == spec_width(mode),
        y < r.spec_height(),
    ensures
        final(out)@ == old(out)@ + spec_wraase_row(mode, *r, y as int),
{
    let ghost out0 = out@;
    let sep = mode.separator_ps();
    let sync = mode.sync_ps();
    let pix = mode.pixel_ps();
    push_tone(out, FREQ_SYNC_255, sync);
    push_tone(out, FREQ_SEP_255, sep);
    emit_channel_scan(out, r, y, 0, pix);
    emit_channel_scan(out, r, y, 1, pix);
    emit_channel_scan(out, r, y, 2, pix);
    proof {
        assert(out@ =~= out0 + spec_wraase_row(mode, *r, y as int));
    }
}

/// Encodes a whole transmission as its tone sequence. The raster must have
/// exactly the mode's dimensions.
pub fn encode_tones(mode: SSTVMode, r: &Raster) -> (out: Vec<Tone>)
    requires
        r.wf(),
        r.spec_width() == spec_width(mode),
        r.spec_height() == spec_height(mode),
    ensures
        out@ == spec_encode_tones(mode, *r),
{
    let mut out: Vec<Tone> = Vec::new();

    // VOX tone
    push_tone(&mut out, FREQ_LEADER_255, 100 * MS_PS);
    push_tone(&mut out, FREQ_SEP_255, 100 * MS_PS);
    push_tone(&mut out, FREQ_LEADER_255, 100 * MS_PS);
    push_tone(&mut out, FREQ_SEP_255, 100 * MS_PS);
    push_tone(&mut out, FREQ_COLOR_HIGH_255, 100 * MS_PS);
    push_tone(&mut out, FREQ_SEP_255, 100 * MS_PS);
    push_tone(&mut out, FREQ_COLOR_HIGH_255, 100 * MS_PS);
    push_tone(&mut out, FREQ_SEP_255, 100 * MS_PS);

    // Calibration header
    push_tone(&mut out, FREQ_LEADER_255, 300 * MS_PS);
    push_tone(&mut out, FREQ_SYNC_255, 10 * MS_PS);
    push_tone(&mut out, FREQ_LEADER_255, 300 * MS_PS);
    push_tone(&mut out, FREQ_SYNC_255, 30 * MS_PS);

    // VIS code and stop bit
    emit_vis_tones(&mut out, mode.vis_code());
    push_tone(&mut out, FREQ_SYNC_255, 30 * MS_PS);

    proof {
        assert(out@ =~= spec_preamble_tones(mode));
    }

    // Leading sync pulse (first line only) for the Scottie and Martin families
    if mode.is_scottie() || mode.is_martin() {
        push_tone(&mut out, FREQ_SYNC_255, mode.sync_ps());
    }

    proof {
        assert(out@ =~= spec_preamble_tones(mode) + spec_leading_sync(mode));
    }

    let h = mode.height();
    for y in 0..h
        invariant
            out@ == spec_preamble_tones(mode) + spec_leading_sync(mode)
                + spec_rows(mode, *r, y as int),
            h == spec_height(mode),
            r.wf(),
            r.spec_width() == spec_width(mode),
            r.spec_height() == spec_height(mode),
    {
        if mode.is_scottie() {
            emit_scottie_row(&mut out, mode, r, y);
        } else if mode.is_martin() {
            emit_martin_row(&mut out, mode, r, y);
        } else if mode.is_bw() {
            emit_bw_row(&mut out, mode, r, y);
        } else {
            emit_wraase_row(&mut out, mode, r, y);
        }
        proof {
            assert(spec_rows(mode, *r, y + 1)
                == spec_rows(mode, *r, y as int) + spec_row(mode, *r, y as int));
            assert(out@ =~= spec_preamble_tones(mode) + spec_leading_sync(mode)
                + spec_rows(mode, *r, y + 1));
        }
    }
    out
}

} // verus!
