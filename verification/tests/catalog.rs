use sstv::SSTVMode;
use sstv::get_mode_from_resolution;

const ALL_MODES: [SSTVMode; 11] = [
    SSTVMode::MartinM1,
    SSTVMode::MartinM2,
    SSTVMode::MartinM3,
    SSTVMode::MartinM4,
    SSTVMode::ScottieS1,
    SSTVMode::ScottieS2,
    SSTVMode::ScottieS3,
    SSTVMode::ScottieS4,
    SSTVMode::ScottieDX,
    SSTVMode::BWSC1s8,
    SSTVMode::WraaseSC2s180,
];

#[test]
fn raster_dimensions_match_catalog() {
    assert_eq!((SSTVMode::MartinM1.width(), SSTVMode::MartinM1.height()), (320, 256));
    assert_eq!((SSTVMode::MartinM2.width(), SSTVMode::MartinM2.height()), (160, 256));
    assert_eq!((SSTVMode::MartinM3.width(), SSTVMode::MartinM3.height()), (320, 128));
    assert_eq!((SSTVMode::MartinM4.width(), SSTVMode::MartinM4.height()), (160, 128));
    assert_eq!((SSTVMode::ScottieS1.width(), SSTVMode::ScottieS1.height()), (320, 256));
    assert_eq!((SSTVMode::ScottieS2.width(), SSTVMode::ScottieS2.height()), (320, 128));
    assert_eq!((SSTVMode::ScottieS3.width(), SSTVMode::ScottieS3.height()), (320, 128));
    assert_eq!((SSTVMode::ScottieS4.width(), SSTVMode::ScottieS4.height()), (160, 128));
    assert_eq!((SSTVMode::ScottieDX.width(), SSTVMode::ScottieDX.height()), (320, 256));
    assert_eq!((SSTVMode::BWSC1s8.width(), SSTVMode::BWSC1s8.height()), (160, 120));
    assert_eq!(
        (SSTVMode::WraaseSC2s180.width(), SSTVMode::WraaseSC2s180.height()),
        (512, 256)
    );
}

#[test]
fn vis_codes_match_catalog() {
    assert_eq!(SSTVMode::MartinM1.vis_code(), 44);
    assert_eq!(SSTVMode::MartinM2.vis_code(), 40);
    assert_eq!(SSTVMode::MartinM3.vis_code(), 36);
    assert_eq!(SSTVMode::MartinM4.vis_code(), 32);
    assert_eq!(SSTVMode::ScottieS1.vis_code(), 60);
    assert_eq!(SSTVMode::ScottieS2.vis_code(), 56);
    assert_eq!(SSTVMode::ScottieS3.vis_code(), 52);
    assert_eq!(SSTVMode::ScottieS4.vis_code(), 48);
    assert_eq!(SSTVMode::ScottieDX.vis_code(), 76);
    assert_eq!(SSTVMode::BWSC1s8.vis_code(), 2);
    assert_eq!(SSTVMode::WraaseSC2s180.vis_code(), 55);
}

#[test]
fn timings_match_catalog() {
    // Durations in picoseconds: 1 ms = 1_000_000_000 ps.
    assert_eq!(SSTVMode::MartinM1.scan_line_ps(), 146_432_000_000); // 146.432 ms
    assert_eq!(SSTVMode::MartinM2.scan_line_ps(), 73_216_000_000);
    assert_eq!(SSTVMode::ScottieS1.scan_line_ps(), 138_240_000_000);
    assert_eq!(SSTVMode::ScottieS2.scan_line_ps(), 88_064_000_000);
    assert_eq!(SSTVMode::ScottieDX.scan_line_ps(), 345_600_000_000);
    assert_eq!(SSTVMode::BWSC1s8.scan_line_ps(), 56_000_000_000);
    assert_eq!(SSTVMode::WraaseSC2s180.scan_line_ps(), 235_000_000_000);

    assert_eq!(SSTVMode::MartinM1.sync_ps(), 4_862_000_000); // 4.862 ms
    assert_eq!(SSTVMode::ScottieS1.sync_ps(), 9_000_000_000);
    assert_eq!(SSTVMode::BWSC1s8.sync_ps(), 10_000_000_000);
    assert_eq!(SSTVMode::WraaseSC2s180.sync_ps(), 5_522_500_000); // 5.5225 ms

    assert_eq!(SSTVMode::MartinM1.separator_ps(), 572_000_000); // 0.572 ms
    assert_eq!(SSTVMode::ScottieS1.separator_ps(), 1_500_000_000);
    assert_eq!(SSTVMode::BWSC1s8.separator_ps(), 3_000_000_000);
    assert_eq!(SSTVMode::WraaseSC2s180.separator_ps(), 500_000_000);
}

#[test]
fn pixel_duration_divides_scan_line_exactly() {
    for m in ALL_MODES {
        assert_eq!(m.pixel_ps() * m.width() as u64, m.scan_line_ps());
    }
}

#[test]
fn family_predicates_partition_the_catalog() {
    for m in ALL_MODES {
        let flags =
            [m.is_martin(), m.is_scottie(), m.is_bw(), m.is_wraase()].iter().filter(|&&f| f).count();
        assert_eq!(flags, 1);
    }
    assert!(SSTVMode::MartinM3.is_martin());
    assert!(SSTVMode::ScottieDX.is_scottie());
    assert!(SSTVMode::BWSC1s8.is_bw());
    assert!(SSTVMode::WraaseSC2s180.is_wraase());
}

#[test]
fn mode_from_resolution_monochrome_always_bw() {
    assert_eq!(get_mode_from_resolution(320, 256, true), SSTVMode::BWSC1s8);
    assert_eq!(get_mode_from_resolution(17, 3, true), SSTVMode::BWSC1s8);
}

#[test]
fn mode_from_resolution_square_ish_falls_back_to_scottie_s1() {
    assert_eq!(get_mode_from_resolution(320, 256, false), SSTVMode::ScottieS1);
    assert_eq!(get_mode_from_resolution(160, 256, false), SSTVMode::ScottieS1);
}

#[test]
fn mode_from_resolution_very_wide_picks_martin_m2() {
    assert_eq!(get_mode_from_resolution(1100, 200, false), SSTVMode::MartinM2);
}

#[test]
fn mode_from_resolution_zero_height_falls_back() {
    assert_eq!(get_mode_from_resolution(100, 0, false), SSTVMode::ScottieS1);
}
