use sstv::Raster;
use sstv::SSTVMode;
use sstv::Tone;
use sstv::encode_tones;
use sstv::encode_samples;
use sstv::plan_samples;

fn solid(mode: SSTVMode, r: u8, g: u8, b: u8) -> Raster {
    let w = mode.width();
    let h = mode.height();
    let mut data = Vec::with_capacity(3 * w * h);
    for _ in 0..w * h {
        data.push(r);
        data.push(g);
        data.push(b);
    }
    Raster::new(w, h, data).unwrap()
}

#[test]
fn plan_keeps_frequencies_and_order() {
    let tones = vec![
        Tone { freq_255: 306_000, dur_ps: 30_000_000_000 },
        Tone { freq_255: 484_500, dur_ps: 300_000_000_000 },
        Tone { freq_255: 382_500, dur_ps: 457_600_000 },
    ];
    let plan = plan_samples(&tones);
    assert_eq!(plan.len(), 3);
    for (t, p) in tones.iter().zip(plan.iter()) {
        assert_eq!(t.freq_255, p.freq_255);
    }
    // 30 ms at 44100 Hz is exactly 1323 samples; 300 ms is 13230.
    assert_eq!(plan[0].n_samples, 1323);
    assert_eq!(plan[1].n_samples, 13230);
    // One pixel of MartinM4 is 0.4576 ms = 20.18016 samples: 20 whole ones,
    // the fraction stays in the accumulator.
    assert_eq!(plan[2].n_samples, 20);
}

#[test]
fn fractional_remainders_accumulate_into_extra_samples() {
    // 250 pixel tones of 0.4576 ms are 5045.04 samples in total; truncating
    // each tone alone would give 250 * 20 = 5000.
    let tones = vec![Tone { freq_255: 382_500, dur_ps: 457_600_000 }; 250];
    let plan = plan_samples(&tones);
    let total: u64 = plan.iter().map(|p| p.n_samples).sum();
    assert_eq!(total, 5045);
}

#[test]
fn total_samples_equal_true_duration_rounded_down() {
    let mode = SSTVMode::MartinM4;
    let raster = solid(mode, 4, 120, 250);
    let tones = encode_tones(mode, &raster);
    let plan = plan_samples(&tones);
    let total_dur: u128 = tones.iter().map(|t| t.dur_ps as u128).sum();
    let total_samples: u128 = plan.iter().map(|p| p.n_samples as u128).sum();
    assert_eq!(total_samples, 441 * total_dur / 10_000_000_000);
}

#[test]
fn martin_m2_sample_count_matches_protocol_timing() {
    let mode = SSTVMode::MartinM2;
    let raster = solid(mode, 77, 1, 255);
    let plan = encode_samples(mode, &raster);
    // Preamble: VOX 8 x 100 ms, calibration 300+10+300+30 ms,
    // VIS 8 x 30 ms, stop 30 ms = 1710 ms; then the leading sync and
    // 256 rows of (sync + 3 x separator + 3 x 160 pixels).
    let ms: u128 = 1_000_000_000;
    let row: u128 = 4_862_000_000 + 3 * 572_000_000 + 3 * 160 * 457_600_000;
    let total_ps: u128 = 1710 * ms + 4_862_000_000 + 256 * row;
    let expected = 441 * total_ps / 10_000_000_000;
    let total: u128 = plan.iter().map(|p| p.n_samples as u128).sum();
    assert_eq!(total, expected);
}

#[test]
fn encode_samples_matches_encode_then_plan() {
    let mode = SSTVMode::BWSC1s8;
    let raster = solid(mode, 9, 200, 3);
    let direct = encode_samples(mode, &raster);
    let composed = plan_samples(&encode_tones(mode, &raster));
    assert_eq!(direct, composed);
}

#[test]
fn every_mode_emits_exactly_its_protocol_duration() {
    let all = [
        SSTVMode::MartinM1,
        SSTVMode::MartinM2,
        SSTVMode::MartinM3,
        SSTVMode::MartinM4,
        SSTVMode::ScottieS1,
        SSTVMode::ScottieS2,
        SSTVMode::ScottieS3,
        SSTVMode::ScottieS4,
        SSTVMode::ScottieDX,
        SSTVMode::BWSC1s8,
        SSTVMode::WraaseSC2s180,
    ];
    let ms: u128 = 1_000_000_000;
    for mode in all {
        let raster = solid(mode, 13, 128, 240);
        let plan = encode_samples(mode, &raster);
        let scan: u128 = mode.scan_line_ps() as u128;
        let sync: u128 = mode.sync_ps() as u128;
        let sep: u128 = mode.separator_ps() as u128;
        let row: u128 = if mode.is_bw() {
            sync + scan
        } else if mode.is_wraase() {
            sync + sep + 3 * scan
        } else {
            sync + 3 * sep + 3 * scan
        };
        let lead: u128 = if mode.is_scottie() || mode.is_martin() { sync } else { 0 };
        let total_ps: u128 = 1710 * ms + lead + mode.height() as u128 * row;
        let expected = 441 * total_ps / 10_000_000_000;
        let total: u128 = plan.iter().map(|p| p.n_samples as u128).sum();
        assert_eq!(total, expected, "mode {:?}", mode);
    }
}
