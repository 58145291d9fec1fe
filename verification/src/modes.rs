//! The SSTV mode catalog: the closed set of supported transmission modes and
//! their published protocol parameters (raster size, VIS code, timings).
//!
//! Durations are carried in picoseconds so that every published timing,
//! including the per-pixel duration `scan line / width`, is an exact integer.

use vstd::prelude::*;

verus! {

/// One of the supported SSTV transmission modes.
#[derive(Debug, Clone, Copy, PartialEq, Eq, Structural)]
pub enum SSTVMode {
    // Martin
    MartinM1,
    MartinM2,
    MartinM3,
    MartinM4,

    // Scottie
    ScottieS1,
    ScottieS2,
    ScottieS3,
    ScottieS4,
    ScottieDX,

    // B/W Mode
    BWSC1s8,

    // Wraase
    WraaseSC2s180,
}

pub open spec fn spec_is_scottie(m: SSTVMode) -> bool {
    m == SSTVMode::ScottieS1 || m == SSTVMode::ScottieS2 || m == SSTVMode::ScottieS3
        || m == SSTVMode::ScottieS4 || m == SSTVMode::ScottieDX
}

pub open spec fn spec_is_martin(m: SSTVMode) -> bool {
    m == SSTVMode::MartinM1 || m == SSTVMode::MartinM2 || m == SSTVMode::MartinM3
        || m == SSTVMode::MartinM4
}

pub open spec fn spec_is_bw(m: SSTVMode) -> bool {
    m == SSTVMode::BWSC1s8
}

pub open spec fn spec_is_wraase(m: SSTVMode) -> bool {
    m == SSTVMode::WraaseSC2s180
}

/// Raster width in pixels.
pub open spec fn spec_width(m: SSTVMode) -> int {
    match m {
        SSTVMode::MartinM1 => 320,
        SSTVMode::MartinM2 => 160,
        SSTVMode::MartinM3 => 320,
        SSTVMode::MartinM4 => 160,
        SSTVMode::ScottieS1 => 320,
        SSTVMode::ScottieS2 => 320,
        SSTVMode::ScottieS3 => 320,
        SSTVMode::ScottieS4 => 160,
        SSTVMode::ScottieDX => 320,
        SSTVMode::BWSC1s8 => 160,
        SSTVMode::WraaseSC2s180 => 512,
    }
}

/// Raster height in pixels.
pub open spec fn spec_height(m: SSTVMode) -> int {
    match m {
        SSTVMode::MartinM1 => 256,
        SSTVMode::MartinM2 => 256,
        SSTVMode::MartinM3 => 128,
        SSTVMode::MartinM4 => 128,
        SSTVMode::ScottieS1 => 256,
        SSTVMode::ScottieS2 => 128,
        SSTVMode::ScottieS3 => 128,
        SSTVMode::ScottieS4 => 128,
        SSTVMode::ScottieDX => 256,
        SSTVMode::BWSC1s8 => 120,
        SSTVMode::WraaseSC2s180 => 256,
    }
}

/// VIS identification code transmitted in the header.
pub open spec fn spec_vis_code(m: SSTVMode) -> int {
    match m {
        SSTVMode::MartinM1 => 44,
        SSTVMode::MartinM2 => 40,
        SSTVMode::MartinM3 => 36,
        SSTVMode::MartinM4 => 32,
        SSTVMode::ScottieS1 => 60,
        SSTVMode::ScottieS2 => 56,
        SSTVMode::ScottieS3 => 52,
        SSTVMode::ScottieS4 => 48,
        SSTVMode::ScottieDX => 76,
        SSTVMode::BWSC1s8 => 2,
        SSTVMode::WraaseSC2s180 => 55,
    }
}

/// Scan-line duration in picoseconds (146.432 ms = 146_432_000_000 ps, ...).
pub open spec fn spec_scan_line_ps(m: SSTVMode) -> int {
    match m {
        SSTVMode::MartinM1 => 146_432_000_000,
        SSTVMode::MartinM2 => 73_216_000_000,
        SSTVMode::MartinM3 => 146_432_000_000,
        SSTVMode::MartinM4 => 73_216_000_000,
        SSTVMode::ScottieS1 => 138_240_000_000,
        SSTVMode::ScottieS2 => 88_064_000_000,
        SSTVMode::ScottieS3 => 138_240_000_000,
        SSTVMode::ScottieS4 => 88_064_000_000,
        SSTVMode::ScottieDX => 345_600_000_000,
        SSTVMode::BWSC1s8 => 56_000_000_000,
        SSTVMode::WraaseSC2s180 => 235_000_000_000,
    }
}

/// Sync-pulse duration in picoseconds.
pub open spec fn spec_sync_ps(m: SSTVMode) -> int {
    match m {
        SSTVMode::MartinM1 => 4_862_000_000,
        SSTVMode::MartinM2 => 4_862_000_000,
        SSTVMode::MartinM3 => 4_862_000_000,
        SSTVMode::MartinM4 => 4_862_000_000,
        SSTVMode::ScottieS1 => 9_000_000_000,
        SSTVMode::ScottieS2 => 9_000_000_000,
        SSTVMode::ScottieS3 => 9_000_000_000,
        SSTVMode::ScottieS4 => 9_000_000_000,
        SSTVMode::ScottieDX => 9_000_000_000,
        SSTVMode::BWSC1s8 => 10_000_000_000,
        SSTVMode::WraaseSC2s180 => 5_522_500_000,
    }
}

/// Separator / porch duration in picoseconds.
pub open spec fn spec_separator_ps(m: SSTVMode) -> int {
    match m {
        SSTVMode::MartinM1 => 572_000_000,
        SSTVMode::MartinM2 => 572_000_000,
        SSTVMode::MartinM3 => 572_000_000,
        SSTVMode::MartinM4 => 572_000_000,
        SSTVMode::ScottieS1 => 1_500_000_000,
        SSTVMode::ScottieS2 => 1_500_000_000,
        SSTVMode::ScottieS3 => 1_500_000_000,
        SSTVMode::ScottieS4 => 1_500_000_000,
        SSTVMode::ScottieDX => 1_500_000_000,
        SSTVMode::BWSC1s8 => 3_000_000_000,
        SSTVMode::WraaseSC2s180 => 500_000_000,
    }
}

/// Duration of one pixel tone: the scan line spread evenly over the width.
/// Exact for every mode (no remainder).
pub open spec fn spec_pixel_ps(m: SSTVMode) -> int {
    spec_scan_line_ps(m) / spec_width(m)
}

pub open spec fn spec_abs_diff(a: int, b: int) -> int {
    if a >= b {
        a - b
    } else {
        b - a
    }
}

/// One step of the aspect-ratio walk: a candidate ratio `r` replaces the
/// current value `c` when `|w/h - r| < c`, all ratios scaled by 10^4 and the
/// comparison cleared of the division (`|w * 10^4 - r * h| < c * h`).
pub open spec fn spec_ratio_step(w: int, h: int, c: int, r: int) -> int {
    if spec_abs_diff(w * 10000, r * h) < c * h {
        r
    } else {
        c
    }
}

/// The candidate aspect ratio (scaled by 10^4) that the walk over
/// 0.625, 1, 1.25, 1.3333, 2, 2.5, 2.6667 settles on; 10^7 when none is
/// ever taken (as with a zero height).
pub open spec fn spec_closest_ratio(w: int, h: int) -> int {
    let c0 = 10_000_000;
    let c1 = spec_ratio_step(w, h, c0, 6250);
    let c2 = spec_ratio_step(w, h, c1, 10000);
    let c3 = spec_ratio_step(w, h, c2, 12500);
    let c4 = spec_ratio_step(w, h, c3, 13333);
    let c5 = spec_ratio_step(w, h, c4, 20000);
    let c6 = spec_ratio_step(w, h, c5, 25000);
    spec_ratio_step(w, h, c6, 26667)
}

/// One step of the area walk: a candidate area `a` replaces the current
/// value `c` when `|area - a| < c`.
pub open spec fn spec_area_step(area: int, c: int, a: int) -> int {
    if spec_abs_diff(area, a) < c {
        a
    } else {
        c
    }
}

/// The candidate pixel count that the walk over the catalog's raster areas
/// settles on; 10^6 when none is ever taken.
pub open spec fn spec_closest_area(area: int) -> int {
    let c0 = 1_000_000;
    let c1 = spec_area_step(area, c0, 16384);
    let c2 = spec_area_step(area, c1, 19200);
    let c3 = spec_area_step(area, c2, 20480);
    let c4 = spec_area_step(area, c3, 32768);
    let c5 = spec_area_step(area, c4, 38400);
    let c6 = spec_area_step(area, c5, 40960);
    let c7 = spec_area_step(area, c6, 65536);
    let c8 = spec_area_step(area, c7, 76800);
    let c9 = spec_area_step(area, c8, 81920);
    spec_area_step(area, c9, 131072)
}

/// The mode that an image of `w` x `h` pixels is assigned: monochrome input
/// always gets the monochrome mode; otherwise the choice follows the settled
/// aspect ratio, refined by the settled area where one ratio serves several
/// modes, with ScottieS1 as the fallback.
pub open spec fn spec_mode_from_resolution(w: int, h: int, monochrome: bool) -> SSTVMode {
    if monochrome {
        SSTVMode::BWSC1s8
    } else {
        let cr = spec_closest_ratio(w, h);
        let ca = spec_closest_area(w * h);
        if cr == 6250 {
            SSTVMode::MartinM2
        } else if cr == 12500 {
            if ca == 20480 {
                SSTVMode::ScottieS4
            } else if ca == 81920 {
                SSTVMode::ScottieS1
            } else {
                SSTVMode::MartinM4
            }
        } else if cr == 20000 {
            SSTVMode::WraaseSC2s180
        } else if cr == 25000 {
            if ca == 40960 {
                SSTVMode::ScottieS2
            } else {
                SSTVMode::MartinM2
            }
        } else {
            SSTVMode::ScottieS1
        }
    }
}

fn ratio_step(w: u32, h: u32, c: u64, r: u64) -> (out: u64)
    requires
        r <= 30_000,
        c <= 10_000_000,
    ensures
        out == spec_ratio_step(w as int, h as int, c as int, r as int),
        out <= 10_000_000,
{
    proof {
        assert(r * (h as u64) <= 30_000 * 0xFFFF_FFFFu64 && c * (h as u64) <= 10_000_000
            * 0xFFFF_FFFFu64) by (nonlinear_arith)
            requires
                r <= 30_000,
                c <= 10_000_000,
                h as u64 <= 0xFFFF_FFFFu64,
        ;
    }
    let wn: u64 = (w as u64) * 10_000;
    let rh: u64 = r * (h as u64);
    let d: u64 = if wn >= rh {
        wn - rh
    } else {
        rh - wn
    };
    if d < c * (h as u64) {
        r
    } else {
        c
    }
}

fn area_step(area: u64, c: u64, a: u64) -> (out: u64)
    requires
        a <= 200_000,
        c <= 1_000_000,
    ensures
        out == spec_area_step(area as int, c as int, a as int),
        out <= 1_000_000,
{
    let d: u64 = if area >= a {
        area - a
    } else {
        a - area
    };
    if d < c {
        a
    } else {
        c
    }
}

/// Picks a default mode for an image of `w` x `h` pixels, by nearest aspect
/// ratio and raster area of the catalog.
pub fn get_mode_from_resolution(w: u32, h: u32, monochrome: bool) -> (m: SSTVMode)
    ensures
        m == spec_mode_from_resolution(w as int, h as int, monochrome),
{
    if monochrome {
        return SSTVMode::BWSC1s8;
    }

    let mut cr: u64 = 10_000_000;
    cr = ratio_step(w, h, cr, 6250);
    cr = ratio_step(w, h, cr, 10000);
    cr = ratio_step(w, h, cr, 12500);
    cr = ratio_step(w, h, cr, 13333);
    cr = ratio_step(w, h, cr, 20000);
    cr = ratio_step(w, h, cr, 25000);
    cr = ratio_step(w, h, cr, 26667);

    proof {
        assert((w as u64) * (h as u64) <= 0xFFFF_FFFFu64 * 0xFFFF_FFFFu64) by (nonlinear_arith)
            requires
                w as u64 <= 0xFFFF_FFFFu64,
                h as u64 <= 0xFFFF_FFFFu64,
        ;
    }
    let area: u64 = (w as u64) * (h as u64);
    let mut ca: u64 = 1_000_000;
    ca = area_step(area, ca, 16384);
    ca = area_step(area, ca, 19200);
    ca = area_step(area, ca, 20480);
    ca = area_step(area, ca, 32768);
    ca = area_step(area, ca, 38400);
    ca = area_step(area, ca, 40960);
    ca = area_step(area, ca, 65536);
    ca = area_step(area, ca, 76800);
    ca = area_step(area, ca, 81920);
    ca = area_step(area, ca, 131072);

    if cr == 6250 {
        SSTVMode::MartinM2
    } else if cr == 12500 {
        if ca == 20480 {
            SSTVMode::ScottieS4
        } else if ca == 81920 {
            SSTVMode::ScottieS1
        } else {
            SSTVMode::MartinM4
        }
    } else if cr == 20000 {
        SSTVMode::WraaseSC2s180
    } else if cr == 25000 {
        if ca == 40960 {
            SSTVMode::ScottieS2
        } else {
            SSTVMode::MartinM2
        }
    } else {
        SSTVMode::ScottieS1
    }
}

impl SSTVMode {
    pub fn is_scottie(&self) -> (r: bool)
        ensures
            r == spec_is_scottie(*self),
    {
        match self {
            SSTVMode::ScottieS1
            | SSTVMode::ScottieS2
            | SSTVMode::ScottieS3
            | SSTVMode::ScottieS4
            | SSTVMode::ScottieDX => true,
            _ => false,
        }
    }

    pub fn is_martin(&self) -> (r: bool)
        ensures
            r == spec_is_martin(*self),
    {
        match self {
            SSTVMode::MartinM1 | SSTVMode::MartinM2 | SSTVMode::MartinM3 | SSTVMode::MartinM4
                => true,
            _ => false,
        }
    }

    pub fn is_bw(&self) -> (r: bool)
        ensures
            r == spec_is_bw(*self),
    {
        match self {
            SSTVMode::BWSC1s8 => true,
            _ => false,
        }
    }

    pub fn is_wraase(&self) -> (r: bool)
        ensures
            r == spec_is_wraase(*self),
    {
        match self {
            SSTVMode::WraaseSC2s180 => true,
            _ => false,
        }
    }

    pub fn width(&self) -> (w: usize)
        ensures
            w == spec_width(*self),
    {
        match self {
            SSTVMode::MartinM1 => 320,
            SSTVMode::MartinM2 => 160,
            SSTVMode::MartinM3 => 320,
            SSTVMode::MartinM4 => 160,
            SSTVMode::ScottieS1 => 320,
            SSTVMode::ScottieS2 => 320,
            SSTVMode::ScottieS3 => 320,
            SSTVMode::ScottieS4 => 160,
            SSTVMode::ScottieDX => 320,
            SSTVMode::BWSC1s8 => 160,
            SSTVMode::WraaseSC2s180 => 512,
        }
    }

    pub fn height(&self) -> (h: usize)
        ensures
            h == spec_height(*self),
    {
        match self {
            SSTVMode::MartinM1 => 256,
            SSTVMode::MartinM2 => 256,
            SSTVMode::MartinM3 => 128,
            SSTVMode::MartinM4 => 128,
            SSTVMode::ScottieS1 => 256,
            SSTVMode::ScottieS2 => 128,
            SSTVMode::ScottieS3 => 128,
            SSTVMode::ScottieS4 => 128,
            SSTVMode::ScottieDX => 256,
            SSTVMode::BWSC1s8 => 120,
            SSTVMode::WraaseSC2s180 => 256,
        }
    }

    pub fn vis_code(&self) -> (v: u8)
        ensures
            v == spec_vis_code(*self),
    {
        match self {
            SSTVMode::MartinM1 => 44,
            SSTVMode::MartinM2 => 40,
            SSTVMode::MartinM3 => 36,
            SSTVMode::MartinM4 => 32,
            SSTVMode::ScottieS1 => 60,
            SSTVMode::ScottieS2 => 56,
            SSTVMode::ScottieS3 => 52,
            SSTVMode::ScottieS4 => 48,
            SSTVMode::ScottieDX => 76,
            SSTVMode::BWSC1s8 => 2,
            SSTVMode::WraaseSC2s180 => 55,
        }
    }

    pub fn scan_line_ps(&self) -> (d: u64)
        ensures
            d == spec_scan_line_ps(*self),
    {
        match self {
            SSTVMode::MartinM1 => 146_432_000_000,
            SSTVMode::MartinM2 => 73_216_000_000,
            SSTVMode::MartinM3 => 146_432_000_000,
            SSTVMode::MartinM4 => 73_216_000_000,
            SSTVMode::ScottieS1 => 138_240_000_000,
            SSTVMode::ScottieS2 => 88_064_000_000,
            SSTVMode::ScottieS3 => 138_240_000_000,
            SSTVMode::ScottieS4 => 88_064_000_000,
            SSTVMode::ScottieDX => 345_600_000_000,
            SSTVMode::BWSC1s8 => 56_000_000_000,
            SSTVMode::WraaseSC2s180 => 235_000_000_000,
        }
    }

    pub fn sync_ps(&self) -> (d: u64)
        ensures
            d == spec_sync_ps(*self),
    {
        match self {
            SSTVMode::MartinM1 | SSTVMode::MartinM2 | SSTVMode::MartinM3 | SSTVMode::MartinM4
                => 4_862_000_000,
            SSTVMode::ScottieS1
            | SSTVMode::ScottieS2
            | SSTVMode::ScottieS3
            | SSTVMode::ScottieS4
            | SSTVMode::ScottieDX => 9_000_000_000,
            SSTVMode::BWSC1s8 => 10_000_000_000,
            SSTVMode::WraaseSC2s180 => 5_522_500_000,
        }
    }

    pub fn separator_ps(&self) -> (d: u64)
        ensures
            d == spec_separator_ps(*self),
    {
        match self {
            SSTVMode::MartinM1 | SSTVMode::MartinM2 | SSTVMode::MartinM3 | SSTVMode::MartinM4
                => 572_000_000,
            SSTVMode::ScottieS1
            | SSTVMode::ScottieS2
            | SSTVMode::ScottieS3
            | SSTVMode::ScottieS4
            | SSTVMode::ScottieDX => 1_500_000_000,
            SSTVMode::BWSC1s8 => 3_000_000_000,
            SSTVMode::WraaseSC2s180 => 500_000_000,
        }
    }

    pub fn pixel_ps(&self) -> (d: u64)
        ensures
            d == spec_pixel_ps(*self),
            d * spec_width(*self) == spec_scan_line_ps(*self),
    {
        match self {
            SSTVMode::MartinM1 => 457_600_000,
            SSTVMode::MartinM2 => 457_600_000,
            SSTVMode::MartinM3 => 457_600_000,
            SSTVMode::MartinM4 => 457_600_000,
            SSTVMode::ScottieS1 => 432_000_000,
            SSTVMode::ScottieS2 => 275_200_000,
            SSTVMode::ScottieS3 => 432_000_000,
            SSTVMode::ScottieS4 => 550_400_000,
            SSTVMode::ScottieDX => 1_080_000_000,
            SSTVMode::BWSC1s8 => 350_000_000,
            SSTVMode::WraaseSC2s180 => 458_984_375,
        }
    }
}

} // verus!
