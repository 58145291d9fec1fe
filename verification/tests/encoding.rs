use sstv::Raster;
use sstv::SSTVMode;
use sstv::Tone;
use sstv::decode_vis_code;
use sstv::encode_tones;
use sstv::pixel_freq_255;
use sstv::vis_code_tones;

const MS: u64 = 1_000_000_000; // picoseconds per millisecond
const SYNC: u32 = 306_000; // 1200 Hz * 255
const SEP: u32 = 382_500; // 1500 Hz * 255
const LEADER: u32 = 484_500; // 1900 Hz * 255
const VIS_ONE: u32 = 280_500; // 1100 Hz * 255
const VIS_ZERO: u32 = 331_500; // 1300 Hz * 255
const HIGH: u32 = 586_500; // 2300 Hz * 255

fn solid(mode: SSTVMode, r: u8, g: u8, b: u8) -> Raster {
    let w = mode.width();
    let h = mode.height();
    let mut data = Vec::with_capacity(3 * w * h);
    for _ in 0..w * h {
        data.push(r);
        data.push(g);
        data.push(b);
    }
    Raster::new(w, h, data).unwrap()
}

#[test]
fn raster_rejects_wrong_store_length() {
    assert!(Raster::new(4, 4, vec![0u8; 48]).is_some());
    assert!(Raster::new(4, 4, vec![0u8; 47]).is_none());
    assert!(Raster::new(4, 4, vec![0u8; 16]).is_none());
}

#[test]
fn pixel_freq_endpoints_and_linearity() {
    assert_eq!(pixel_freq_255(0), 1500 * 255);
    assert_eq!(pixel_freq_255(255), 2300 * 255);
    assert_eq!(pixel_freq_255(128), 382_500 + 800 * 128);
    let mut prev = pixel_freq_255(0);
    for v in 1..=255u8 {
        let f = pixel_freq_255(v);
        assert!(f > prev);
        assert_eq!(f, 382_500 + 800 * v as u32);
        prev = f;
    }
}

#[test]
fn vis_round_trip_all_byte_values() {
    for v in 0..=255u8 {
        let tones = vis_code_tones(v);
        assert_eq!(tones.len(), 8);
        for t in &tones {
            assert!(t.freq_255 == VIS_ONE || t.freq_255 == VIS_ZERO);
            assert_eq!(t.dur_ps, 30 * MS);
        }
        assert_eq!(decode_vis_code(&tones), Some(v));
    }
}

#[test]
fn vis_decode_rejects_bad_sequences() {
    let short = vec![Tone { freq_255: VIS_ONE, dur_ps: 30 * MS }; 7];
    assert_eq!(decode_vis_code(&short), None);
    let mut bad = vis_code_tones(44);
    bad[3].freq_255 = SYNC;
    assert_eq!(decode_vis_code(&bad), None);
}

#[test]
fn preamble_is_vox_calibration_vis_stop() {
    let raster = solid(SSTVMode::MartinM4, 0, 0, 0);
    let tones = encode_tones(SSTVMode::MartinM4, &raster);
    // VOX tone: 1900,1500,1900,1500,2300,1500,2300,1500 Hz at 100 ms each
    let vox = [LEADER, SEP, LEADER, SEP, HIGH, SEP, HIGH, SEP];
    for (i, f) in vox.iter().enumerate() {
        assert_eq!(tones[i], Tone { freq_255: *f, dur_ps: 100 * MS });
    }
    // Calibration header: 1900x300, 1200x10, 1900x300, 1200x30
    assert_eq!(tones[8], Tone { freq_255: LEADER, dur_ps: 300 * MS });
    assert_eq!(tones[9], Tone { freq_255: SYNC, dur_ps: 10 * MS });
    assert_eq!(tones[10], Tone { freq_255: LEADER, dur_ps: 300 * MS });
    assert_eq!(tones[11], Tone { freq_255: SYNC, dur_ps: 30 * MS });
    // VIS code 32 = 0b0010_0000, LSB first, then the stop bit
    for b in 0..8 {
        let expect = if b == 5 { VIS_ONE } else { VIS_ZERO };
        assert_eq!(tones[12 + b], Tone { freq_255: expect, dur_ps: 30 * MS });
    }
    assert_eq!(tones[20], Tone { freq_255: SYNC, dur_ps: 30 * MS });
}

#[test]
fn martin_scan_line_structure() {
    let mode = SSTVMode::MartinM4;
    let raster = solid(mode, 10, 20, 30);
    let tones = encode_tones(mode, &raster);
    let sync = mode.sync_ps();
    let sep = mode.separator_ps();
    let pix = mode.pixel_ps();
    // 21 preamble tones + leading sync + 128 rows of 484 tones
    assert_eq!(tones.len(), 22 + 128 * 484);
    assert_eq!(tones[21], Tone { freq_255: SYNC, dur_ps: sync });
    // Row: sync, porch, green x160, sep, blue x160, sep, red x160
    assert_eq!(tones[22], Tone { freq_255: SYNC, dur_ps: sync });
    assert_eq!(tones[23], Tone { freq_255: SEP, dur_ps: sep });
    for x in 0..160 {
        assert_eq!(tones[24 + x], Tone { freq_255: pixel_freq_255(20), dur_ps: pix });
        assert_eq!(tones[185 + x], Tone { freq_255: pixel_freq_255(30), dur_ps: pix });
        assert_eq!(tones[346 + x], Tone { freq_255: pixel_freq_255(10), dur_ps: pix });
    }
    assert_eq!(tones[184], Tone { freq_255: SEP, dur_ps: sep });
    assert_eq!(tones[345], Tone { freq_255: SEP, dur_ps: sep });
    // Next row starts with its sync pulse
    assert_eq!(tones[506], Tone { freq_255: SYNC, dur_ps: sync });
}

#[test]
fn scottie_scan_line_structure() {
    let mode = SSTVMode::ScottieS4;
    let raster = solid(mode, 10, 20, 30);
    let tones = encode_tones(mode, &raster);
    let sync = mode.sync_ps();
    let sep = mode.separator_ps();
    let pix = mode.pixel_ps();
    assert_eq!(tones.len(), 22 + 128 * 484);
    // Leading sync before the first row only
    assert_eq!(tones[21], Tone { freq_255: SYNC, dur_ps: sync });
    // Row: sep, green x160, sep, blue x160, sync, sep, red x160
    assert_eq!(tones[22], Tone { freq_255: SEP, dur_ps: sep });
    for x in 0..160 {
        assert_eq!(tones[23 + x], Tone { freq_255: pixel_freq_255(20), dur_ps: pix });
        assert_eq!(tones[184 + x], Tone { freq_255: pixel_freq_255(30), dur_ps: pix });
        assert_eq!(tones[346 + x], Tone { freq_255: pixel_freq_255(10), dur_ps: pix });
    }
    assert_eq!(tones[183], Tone { freq_255: SEP, dur_ps: sep });
    assert_eq!(tones[344], Tone { freq_255: SYNC, dur_ps: sync });
    assert_eq!(tones[345], Tone { freq_255: SEP, dur_ps: sep });
    // Next row opens with its separator, not a sync
    assert_eq!(tones[506], Tone { freq_255: SEP, dur_ps: sep });
}

#[test]
fn monochrome_scan_line_structure() {
    let mode = SSTVMode::BWSC1s8;
    let raster = solid(mode, 10, 20, 30);
    let tones = encode_tones(mode, &raster);
    let pix = mode.pixel_ps();
    // No leading sync; each row is a sync pulse plus the green channel only
    assert_eq!(tones.len(), 21 + 120 * 161);
    assert_eq!(tones[21], Tone { freq_255: SYNC, dur_ps: mode.sync_ps() });
    for x in 0..160 {
        assert_eq!(tones[22 + x], Tone { freq_255: pixel_freq_255(20), dur_ps: pix });
    }
    assert_eq!(tones[182], Tone { freq_255: SYNC, dur_ps: mode.sync_ps() });
}

#[test]
fn wraase_scan_line_structure() {
    let mode = SSTVMode::WraaseSC2s180;
    let raster = solid(mode, 10, 20, 30);
    let tones = encode_tones(mode, &raster);
    let pix = mode.pixel_ps();
    // No leading sync; row: sync, porch, red x512, green x512, blue x512
    assert_eq!(tones.len(), 21 + 256 * 1538);
    assert_eq!(tones[21], Tone { freq_255: SYNC, dur_ps: mode.sync_ps() });
    assert_eq!(tones[22], Tone { freq_255: SEP, dur_ps: mode.separator_ps() });
    for x in 0..512 {
        assert_eq!(tones[23 + x], Tone { freq_255: pixel_freq_255(10), dur_ps: pix });
        assert_eq!(tones[535 + x], Tone { freq_255: pixel_freq_255(20), dur_ps: pix });
        assert_eq!(tones[1047 + x], Tone { freq_255: pixel_freq_255(30), dur_ps: pix });
    }
    assert_eq!(tones[1559], Tone { freq_255: SYNC, dur_ps: mode.sync_ps() });
}

#[test]
fn encoding_twice_is_byte_identical() {
    let mode = SSTVMode::MartinM4;
    let w = mode.width();
    let h = mode.height();
    let mut data = Vec::with_capacity(3 * w * h);
    for i in 0..3 * w * h {
        data.push((i % 251) as u8);
    }
    let raster = Raster::new(w, h, data).unwrap();
    let first = encode_tones(mode, &raster);
    let second = encode_tones(mode, &raster);
    assert_eq!(first, second);
}

#[test]
fn black_raster_scans_only_1500_hz() {
    for mode in [
        SSTVMode::MartinM4,
        SSTVMode::ScottieS4,
        SSTVMode::BWSC1s8,
        SSTVMode::WraaseSC2s180,
    ] {
        let raster = solid(mode, 0, 0, 0);
        let pix = mode.pixel_ps();
        for t in &encode_tones(mode, &raster)[21..] {
            if t.dur_ps == pix {
                assert_eq!(t.freq_255, SEP); // 1500 Hz exactly
            }
        }
    }
}

#[test]
fn white_raster_scans_only_2300_hz() {
    for mode in [
        SSTVMode::MartinM4,
        SSTVMode::ScottieS4,
        SSTVMode::BWSC1s8,
        SSTVMode::WraaseSC2s180,
    ] {
        let raster = solid(mode, 255, 255, 255);
        let pix = mode.pixel_ps();
        for t in &encode_tones(mode, &raster)[21..] {
            if t.dur_ps == pix {
                assert_eq!(t.freq_255, HIGH); // 2300 Hz exactly
            }
        }
    }
}
