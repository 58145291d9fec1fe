//! Sample planning: how many 44100 Hz samples each tone occupies.
//!
//! The true sample count of a tone is `44100 * duration_ms / 1000`, which is
//! rarely an integer. A running fractional accumulator carries the remainder
//! from tone to tone, so the emitted total never drifts from the true total
//! by a whole sample. With durations in picoseconds the true count is the
//! rational `441 * dur_ps / 10^10`, and the accumulator is its remainder
//! numerator over the fixed denominator `10^10` — all exact integers.

use vstd::arithmetic::div_mod::lemma_fundamental_div_mod;
use vstd::arithmetic::div_mod::lemma_fundamental_div_mod_converse;
use vstd::prelude::*;

use crate::encoder::FREQ_SEP_255;
use crate::encoder::FREQ_SYNC_255;
use crate::encoder::MS_PS;
use crate::encoder::Tone;
use crate::encoder::encode_tones;
use crate::encoder::spec_calibration_tones;
use crate::encoder::spec_channel_scan;
use crate::encoder::spec_encode_tones;
use crate::encoder::spec_leading_sync;
use crate::encoder::spec_preamble_tones;
use crate::encoder::spec_row;
use crate::encoder::spec_rows;
use crate::encoder::spec_vis_tones;
use crate::encoder::spec_vox_tones;
use crate::encoder::tone;
use crate::modes::SSTVMode;
use crate::modes::spec_height;
use crate::modes::spec_vis_code;
use crate::modes::spec_is_bw;
use crate::modes::spec_is_martin;
use crate::modes::spec_is_scottie;
use crate::modes::spec_is_wraase;
use crate::modes::spec_pixel_ps;
use crate::modes::spec_separator_ps;
use crate::modes::spec_sync_ps;
use crate::modes::spec_width;
use crate::raster::Raster;

verus! {

/// Output sample rate in Hz.
pub const SAMPLE_RATE: u32 = 44100;

/// Denominator of the fractional-sample accumulator: a tone of `d`
/// picoseconds lasts exactly `441 * d / 10^10` samples at 44100 Hz.
pub const DRIFT_DEN: u64 = 10_000_000_000;

/// A tone with its resolved whole-sample length.
#[derive(Debug, Clone, Copy, PartialEq, Eq, Structural)]
pub struct SamplePlan {
    pub freq_255: u32,
    pub n_samples: u64,
}

/// Samples emitted for a tone of `dur` picoseconds when the accumulator
/// holds `acc` (a remainder numerator over `DRIFT_DEN`).
pub open spec fn spec_emit_count(acc: int, dur: int) -> int {
    (acc + 441 * dur) / (DRIFT_DEN as int)
}

/// The accumulator after that tone.
pub open spec fn spec_next_acc(acc: int, dur: int) -> int {
    (acc + 441 * dur) % (DRIFT_DEN as int)
}

/// The accumulator after the first `n` tones.
pub open spec fn spec_acc_after(tones: Seq<Tone>, n: int) -> int
    decreases n,
{
    if n <= 0 {
        0
    } else {
        spec_next_acc(spec_acc_after(tones, n - 1), tones[n - 1].dur_ps as int)
    }
}

/// The plan of the first `n` tones.
pub open spec fn spec_plan_upto(tones: Seq<Tone>, n: int) -> Seq<SamplePlan>
    decreases n,
{
    if n <= 0 {
        Seq::empty()
    } else {
        spec_plan_upto(tones, n - 1).push(
            SamplePlan {
                freq_255: tones[n - 1].freq_255,
                n_samples: spec_emit_count(
                    spec_acc_after(tones, n - 1),
                    tones[n - 1].dur_ps as int,
                ) as u64,
            },
        )
    }
}

/// The plan of a whole tone sequence, starting from an empty accumulator.
pub open spec fn spec_plan(tones: Seq<Tone>) -> Seq<SamplePlan> {
    spec_plan_upto(tones, tones.len() as int)
}

/// Total duration, in picoseconds, of the first `n` tones.
pub open spec fn spec_total_dur(tones: Seq<Tone>, n: int) -> int
    decreases n,
{
    if n <= 0 {
        0
    } else {
        spec_total_dur(tones, n - 1) + tones[n - 1].dur_ps
    }
}

/// Total number of samples over a plan.
pub open spec fn spec_total_samples(plan: Seq<SamplePlan>) -> int
    decreases plan.len(),
{
    if plan.len() == 0 {
        0
    } else {
        spec_total_samples(plan.drop_last()) + plan.last().n_samples
    }
}

/// Resolves each tone of a sequence to a whole number of samples,
/// carrying the fractional remainder from tone to tone.
pub fn plan_samples(tones: &Vec<Tone>) -> (out: Vec<SamplePlan>)
    ensures
        out@ == spec_plan(tones@),
{
    let mut out: Vec<SamplePlan> = Vec::new();
    let mut acc: u64 = 0;
    let n = tones.len();
    for i in 0..n
        invariant
            n == tones@.len(),
            acc == spec_acc_after(tones@, i as int),
            acc < DRIFT_DEN,
            out@ == spec_plan_upto(tones@, i as int),
    {
        let t = tones[i];
        let num: u128 = acc as u128 + 441u128 * (t.dur_ps as u128);
        proof {
            assert(num / (DRIFT_DEN as u128) < 0x1_0000_0000_0000_0000) by (nonlinear_arith)
                requires
                    num < 0x1_0000_0000_0000_0000u128 * (DRIFT_DEN as u128),
            ;
            assert(num % (DRIFT_DEN as u128) < DRIFT_DEN as u128) by (nonlinear_arith);
        }
        let emitted: u64 = (num / (DRIFT_DEN as u128)) as u64;
        let acc2: u64 = (num % (DRIFT_DEN as u128)) as u64;
        out.push(SamplePlan { freq_255: t.freq_255, n_samples: emitted });
        acc = acc2;
        proof {
            assert(out@ =~= spec_plan_upto(tones@, i + 1));
        }
    }
    out
}

/// Encodes a whole transmission and resolves it to per-tone sample counts:
/// the complete plan of the audio a (mode, raster) pair produces.
pub fn encode_samples(mode: SSTVMode, r: &Raster) -> (out: Vec<SamplePlan>)
    requires
        r.wf(),
        r.spec_width() == spec_width(mode),
        r.spec_height() == spec_height(mode),
    ensures
        out@ == spec_plan(spec_encode_tones(mode, *r)),
{
    let tones = encode_tones(mode, r);
    plan_samples(&tones)
}

/// Drift compensation, exactly: over the first `n` tones, the emitted
/// samples and the leftover accumulator account for the true (rational)
/// total `441 * total_dur / 10^10` with no loss.
pub proof fn lemma_drift_invariant(tones: Seq<Tone>, n: int)
    requires
        0 <= n <= tones.len(),
    ensures
        (DRIFT_DEN as int) * spec_total_samples(spec_plan_upto(tones, n))
            + spec_acc_after(tones, n) == 441 * spec_total_dur(tones, n),
        0 <= spec_acc_after(tones, n) < DRIFT_DEN,
    decreases n,
{
    if n <= 0 {
    } else {
        lemma_drift_invariant(tones, n - 1);
        let acc = spec_acc_after(tones, n - 1);
        let dur = tones[n - 1].dur_ps as int;
        lemma_fundamental_div_mod(acc + 441 * dur, DRIFT_DEN as int);
        assert(spec_plan_upto(tones, n).drop_last() =~= spec_plan_upto(tones, n - 1));
    }
}

/// The total emitted sample count of a whole plan is exactly
/// `floor(441 * total_duration_ps / 10^10)`, i.e. the true duration rounded
/// down to whole samples — within one sample of the true total, however many
/// tones the transmission has.
pub proof fn lemma_total_sample_count(tones: Seq<Tone>)
    ensures
        spec_total_samples(spec_plan(tones))
            == 441 * spec_total_dur(tones, tones.len() as int) / (DRIFT_DEN as int),
{
    let n = tones.len() as int;
    lemma_drift_invariant(tones, n);
    lemma_fundamental_div_mod_converse(
        441 * spec_total_dur(tones, n),
        DRIFT_DEN as int,
        spec_total_samples(spec_plan_upto(tones, n)),
        spec_acc_after(tones, n),
    );
}

/// Duration, in picoseconds, of one scan line with its sync and separator
/// tones — the same for every row and every raster, fixed by the mode.
pub open spec fn spec_row_ps(m: SSTVMode) -> int {
    let scan = spec_width(m) * spec_pixel_ps(m);
    if spec_is_bw(m) {
        spec_sync_ps(m) + scan
    } else if spec_is_wraase(m) {
        spec_sync_ps(m) + spec_separator_ps(m) + 3 * scan
    } else {
        spec_sync_ps(m) + 3 * spec_separator_ps(m) + 3 * scan
    }
}

/// Duration, in picoseconds, of a whole transmission: the 1710 ms preamble
/// (VOX, calibration, VIS bits, stop bit), the leading sync pulse where the
/// family has one, and one scan line per row. No term depends on the raster.
pub open spec fn spec_transmission_ps(m: SSTVMode) -> int {
    1710 * (MS_PS as int) + (
        if spec_is_scottie(m) || spec_is_martin(m) {
            spec_sync_ps(m)
        } else {
            0
        }
    ) + spec_height(m) * spec_row_ps(m)
}

proof fn lemma_total_dur_agree(s: Seq<Tone>, t: Seq<Tone>, n: int)
    requires
        forall|i: int| 0 <= i < n ==> s[i] == t[i],
    ensures
        spec_total_dur(s, n) == spec_total_dur(t, n),
    decreases n,
{
    if n > 0 {
        lemma_total_dur_agree(s, t, n - 1);
    }
}

proof fn lemma_total_dur_concat(a: Seq<Tone>, b: Seq<Tone>)
    ensures
        spec_total_dur(a + b, (a.len() + b.len()) as int) == spec_total_dur(a, a.len() as int)
            + spec_total_dur(b, b.len() as int),
    decreases b.len(),
{
    if b.len() == 0 {
        assert(a + b =~= a);
        lemma_total_dur_agree(a + b, a, a.len() as int);
    } else {
        let b0 = b.drop_last();
        lemma_total_dur_concat(a, b0);
        lemma_total_dur_agree(a + b, a + b0, a.len() + b.len() - 1);
        assert((a + b)[a.len() + b.len() - 1] == b[b.len() - 1]);
        lemma_total_dur_agree(b, b0, b.len() - 1);
    }
}

proof fn lemma_const_dur_total(s: Seq<Tone>, n: int, d: int)
    requires
        0 <= n,
        forall|i: int| 0 <= i < n ==> s[i].dur_ps == d,
    ensures
        spec_total_dur(s, n) == n * d,
    decreases n,
{
    if n == 0 {
    } else {
        lemma_const_dur_total(s, n - 1, d);
        assert(n * d == (n - 1) * d + d) by (nonlinear_arith);
    }
}

proof fn lemma_one_dur(s: Seq<Tone>, d0: int)
    requires
        s[0].dur_ps == d0,
    ensures
        spec_total_dur(s, 1) == d0,
{
    assert(spec_total_dur(s, 0) == 0);
}

proof fn lemma_two_dur(s: Seq<Tone>, d0: int, d1: int)
    requires
        s[0].dur_ps == d0,
        s[1].dur_ps == d1,
    ensures
        spec_total_dur(s, 2) == d0 + d1,
{
    assert(spec_total_dur(s, 0) == 0);
    assert(spec_total_dur(s, 1) == d0);
}

proof fn lemma_preamble_dur(m: SSTVMode)
    ensures
        spec_preamble_tones(m).len() == 21,
        spec_total_dur(spec_preamble_tones(m), 21) == 1710 * MS_PS,
{
    let vox = spec_vox_tones();
    let cal = spec_calibration_tones();
    let vis = spec_vis_tones(spec_vis_code(m) as u8);
    let stop = seq![tone(FREQ_SYNC_255 as int, 30 * MS_PS as int)];
    lemma_const_dur_total(vox, 8, 100 * MS_PS as int);
    assert(spec_total_dur(cal, 0) == 0);
    assert(spec_total_dur(cal, 1) == 300 * MS_PS);
    assert(spec_total_dur(cal, 2) == 310 * MS_PS);
    assert(spec_total_dur(cal, 3) == 610 * MS_PS);
    assert(spec_total_dur(cal, 4) == 640 * MS_PS);
    lemma_const_dur_total(vis, 8, 30 * MS_PS as int);
    lemma_one_dur(stop, 30 * MS_PS as int);
    lemma_total_dur_concat(vox, cal);
    lemma_total_dur_concat(vox + cal, vis);
    lemma_total_dur_concat(vox + cal + vis, stop);
}

proof fn lemma_row_dur(m: SSTVMode, r: Raster, y: int)
    ensures
        spec_total_dur(spec_row(m, r, y), spec_row(m, r, y).len() as int) == spec_row_ps(m),
{
    let w = spec_width(m);
    let pix = spec_pixel_ps(m);
    let sync = spec_sync_ps(m);
    let sep = spec_separator_ps(m);
    let scan_g = spec_channel_scan(r, y, 1, pix, w);
    let scan_b = spec_channel_scan(r, y, 2, pix, w);
    let scan_r = spec_channel_scan(r, y, 0, pix, w);
    lemma_const_dur_total(scan_g, w, pix);
    lemma_const_dur_total(scan_b, w, pix);
    lemma_const_dur_total(scan_r, w, pix);
    let t_sync = seq![tone(FREQ_SYNC_255 as int, sync)];
    let t_sep = seq![tone(FREQ_SEP_255 as int, sep)];
    lemma_one_dur(t_sync, sync);
    lemma_one_dur(t_sep, sep);
    if spec_is_scottie(m) {
        lemma_total_dur_concat(t_sep, scan_g);
        lemma_total_dur_concat(t_sep + scan_g, t_sep);
        lemma_total_dur_concat(t_sep + scan_g + t_sep, scan_b);
        let sync_sep = seq![
            tone(FREQ_SYNC_255 as int, sync),
            tone(FREQ_SEP_255 as int, sep),
        ];
        lemma_two_dur(sync_sep, sync, sep);
        lemma_total_dur_concat(t_sep + scan_g + t_sep + scan_b, sync_sep);
        lemma_total_dur_concat(t_sep + scan_g + t_sep + scan_b + sync_sep, scan_r);
        assert(spec_row(m, r, y) == t_sep + scan_g + t_sep + scan_b + sync_sep + scan_r);
    } else if spec_is_martin(m) {
        let sync_sep = seq![
            tone(FREQ_SYNC_255 as int, sync),
            tone(FREQ_SEP_255 as int, sep),
        ];
        lemma_two_dur(sync_sep, sync, sep);
        lemma_total_dur_concat(sync_sep, scan_g);
        lemma_total_dur_concat(sync_sep + scan_g, t_sep);
        lemma_total_dur_concat(sync_sep + scan_g + t_sep, scan_b);
        lemma_total_dur_concat(sync_sep + scan_g + t_sep + scan_b, t_sep);
        lemma_total_dur_concat(sync_sep + scan_g + t_sep + scan_b + t_sep, scan_r);
        assert(spec_row(m, r, y) == sync_sep + scan_g + t_sep + scan_b + t_sep + scan_r);
    } else if spec_is_bw(m) {
        lemma_total_dur_concat(t_sync, scan_g);
        assert(spec_row(m, r, y) == t_sync + scan_g);
    } else {
        let sync_sep = seq![
            tone(FREQ_SYNC_255 as int, sync),
            tone(FREQ_SEP_255 as int, sep),
        ];
        lemma_two_dur(sync_sep, sync, sep);
        lemma_total_dur_concat(sync_sep, scan_r);
        lemma_total_dur_concat(sync_sep + scan_r, scan_g);
        lemma_total_dur_concat(sync_sep + scan_r + scan_g, scan_b);
        assert(spec_row(m, r, y) == sync_sep + scan_r + scan_g + scan_b);
    }
}

proof fn lemma_rows_dur(m: SSTVMode, r: Raster, n: int)
    requires
        0 <= n,
    ensures
        spec_total_dur(spec_rows(m, r, n), spec_rows(m, r, n).len() as int)
            == n * spec_row_ps(m),
    decreases n,
{
    if n == 0 {
    } else {
        lemma_rows_dur(m, r, n - 1);
        lemma_row_dur(m, r, n - 1);
        lemma_total_dur_concat(spec_rows(m, r, n - 1), spec_row(m, r, n - 1));
        assert(n * spec_row_ps(m) == (n - 1) * spec_row_ps(m) + spec_row_ps(m))
            by (nonlinear_arith);
    }
}

/// The transmission's length in time is fixed by the mode alone: whatever
/// the raster holds, the encoded tone sequence lasts exactly
/// `spec_transmission_ps(m)` picoseconds.
pub proof fn lemma_transmission_duration(m: SSTVMode, r: Raster)
    ensures
        spec_total_dur(spec_encode_tones(m, r), spec_encode_tones(m, r).len() as int)
            == spec_transmission_ps(m),
{
    let pre = spec_preamble_tones(m);
    let lead = spec_leading_sync(m);
    let rows = spec_rows(m, r, spec_height(m));
    lemma_preamble_dur(m);
    lemma_rows_dur(m, r, spec_height(m));
    if spec_is_scottie(m) || spec_is_martin(m) {
        lemma_one_dur(lead, spec_sync_ps(m));
    }
    lemma_total_dur_concat(pre, lead);
    lemma_total_dur_concat(pre + lead, rows);
}

/// The length of the finished sample buffer, per mode: the whole plan of any
/// (mode, raster) pair emits exactly
/// `floor(441 * spec_transmission_ps(m) / 10^10)` samples — within one sample
/// of the true duration at 44100 Hz, independent of the raster's content.
pub proof fn lemma_transmission_sample_count(m: SSTVMode, r: Raster)
    ensures
        spec_total_samples(spec_plan(spec_encode_tones(m, r)))
            == 441 * spec_transmission_ps(m) / (DRIFT_DEN as int),
{
    lemma_total_sample_count(spec_encode_tones(m, r));
    lemma_transmission_duration(m, r);
}

} // verus!
