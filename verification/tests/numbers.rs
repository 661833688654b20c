use video_compare::double::{nearest_int, nearest_ratio, round_ratio};
use video_compare::numbers::{
    fmt_time, frame_number, human_bytes, human_size, magnitude_of, trim, trim_fps,
};

/// A small generator, so that the samples are the same in every run.
fn next(state: &mut u64) -> u64 {
    *state = state
        .wrapping_mul(6364136223846793005)
        .wrapping_add(1442695040888963407);
    (*state >> 16) ^ (*state << 23)
}

fn trimmed(f: f64) -> String {
    let s = format!("{f:.3}");
    s.trim_end_matches('0').trim_end_matches('.').to_string()
}

fn sized(bytes: u64) -> String {
    let units = ["B", "KB", "MB", "GB", "TB"];
    let mut size = bytes as f64;
    let mut unit = 0;
    while size >= 1024.0 && unit < 4 {
        size /= 1024.0;
        unit += 1;
    }
    if unit == 0 {
        format!("{bytes} B")
    } else {
        format!("{size:.1} {}", units[unit])
    }
}

fn timed(ns: u64) -> String {
    let secs = ns as f64 / 1e9;
    let t = secs.max(0.0) as u64;
    let (h, m, s) = (t / 3600, (t % 3600) / 60, t % 60);
    if h > 0 {
        format!("{h}:{m:02}:{s:02}")
    } else {
        format!("{m}:{s:02}")
    }
}

#[test]
fn rounding_goes_to_the_even_neighbour() {
    assert_eq!(round_ratio(5, 2), 2);
    assert_eq!(round_ratio(7, 2), 4);
    assert_eq!(round_ratio(8, 3), 3);
    assert_eq!(round_ratio(7, 3), 2);
    assert_eq!(round_ratio(0, 9), 0);
}

#[test]
fn integers_round_as_doubles_do() {
    let mut seed: u64 = 7;
    for i in 0..20_000u64 {
        let n = next(&mut seed) >> (i % 64);
        assert_eq!(nearest_int(n as u128), n as f64 as u128);
    }
    for n in [0, 1, (1u64 << 53) + 1, (1 << 53) + 3, u64::MAX, u64::MAX - 1024, 1 << 63] {
        assert_eq!(nearest_int(n as u128), n as f64 as u128);
    }
}

#[test]
fn ratios_round_as_doubles_do() {
    let mut seed: u64 = 11;
    for i in 0..20_000u64 {
        let n = (next(&mut seed) as u32) >> (i % 32);
        let d = ((next(&mut seed) as u32) >> (i % 29)).max(1);
        let x = nearest_ratio(n as u128, d as u128);
        assert_eq!(x.mant as f64 / x.scale as f64, n as f64 / d as f64);
    }
}

#[test]
fn rates_are_trimmed() {
    assert_eq!(trim(24000, 1001), "23.976");
    assert_eq!(trim(30000, 1001), "29.97");
    assert_eq!(trim(48000, 1000), "48");
    assert_eq!(trim(44100, 1000), "44.1");
    assert_eq!(trim(10, 1), "10");
    assert_eq!(trim(100, 1), "100");
    assert_eq!(trim(0, 5), "0");
    assert_eq!(trim(1, 2000), "0.001");
    assert_eq!(trim(u32::MAX, 1), "4294967295");
    assert_eq!(trim_fps(60, 1), "60");
    assert_eq!(trim_fps(-30, 1), "-30");
    assert_eq!(trim_fps(30, -1), "-30");
    assert_eq!(trim_fps(-24000, -1001), "23.976");
    assert_eq!(trim_fps(0, 1), "0");
    assert_eq!(trim_fps(0, -1), "-0");
    assert_eq!(trim_fps(i32::MIN, 1), "-2147483648");
    assert_eq!(trim_fps(0, 0), "NaN");
    assert_eq!(trim_fps(1, 0), "inf");
    assert_eq!(trim_fps(-1, 0), "-inf");
}

#[test]
fn rates_agree_with_double_formatting() {
    let mut seed: u64 = 3;
    for i in 0..20_000u64 {
        let n = (next(&mut seed) as i32) >> (i % 31);
        let d = (next(&mut seed) as i32) >> (i % 29);
        assert_eq!(trim_fps(n, d), trimmed(n as f64 / d as f64));
    }
    for d in 1..3000 {
        assert_eq!(trim_fps(1, d), trimmed(1.0 / d as f64));
        assert_eq!(trim_fps(d, 2000), trimmed(d as f64 / 2000.0));
        assert_eq!(trim(d as u32, 1000), trimmed(d as f64 / 1000.0));
    }
}

#[test]
fn sizes_are_shown_in_the_unit_that_fits() {
    assert_eq!(human_size(0), "0 B");
    assert_eq!(human_size(1023), "1023 B");
    assert_eq!(human_size(1024), "1.0 KB");
    assert_eq!(human_size(1536), "1.5 KB");
    assert_eq!(human_size(1024 * 1024 - 1), "1024.0 KB");
    assert_eq!(human_size(1024 * 1024), "1.0 MB");
    assert_eq!(human_size(5 * 1024 * 1024 * 1024), "5.0 GB");
    assert_eq!(human_size(1 << 40), "1.0 TB");
    assert_eq!(human_size(u64::MAX), "16777216.0 TB");
    assert_eq!(human_bytes(1280), "1.2 KB");
    assert_eq!(human_bytes(1792), "1.8 KB");
}

#[test]
fn sizes_agree_with_double_formatting() {
    let mut seed: u64 = 5;
    for i in 0..20_000u64 {
        let n = next(&mut seed) >> (i % 64);
        assert_eq!(human_size(n), sized(n));
        assert_eq!(human_bytes(n), sized(n));
    }
    for quarter in 0..64u64 {
        for near in 0..3u64 {
            let n = (1u64 << 63) + (quarter << 38) + near;
            assert_eq!(human_size(n), sized(n));
            assert_eq!(human_size(n - 2), sized(n - 2));
        }
    }
}

#[test]
fn times_are_shown_in_minutes_or_hours() {
    let second: u64 = 1_000_000_000;
    assert_eq!(fmt_time(0), "0:00");
    assert_eq!(fmt_time(second - 1), "0:00");
    assert_eq!(fmt_time(5 * second), "0:05");
    assert_eq!(fmt_time(90 * second), "1:30");
    assert_eq!(fmt_time(3599 * second), "59:59");
    assert_eq!(fmt_time(3600 * second), "1:00:00");
    assert_eq!(fmt_time((2 * 3600 + 3 * 60 + 4) * second), "2:03:04");
    assert_eq!(fmt_time((100 * 3600 + 59) * second), "100:00:59");
}

#[test]
fn short_times_show_the_seconds_that_are_full() {
    let mut seed: u64 = 13;
    for i in 0..5_000u64 {
        let ns = (next(&mut seed) >> 11) >> (i % 40);
        let t = ns / 1_000_000_000;
        let (h, m, s) = (t / 3600, t % 3600 / 60, t % 60);
        if h == 0 {
            assert_eq!(fmt_time(ns), format!("{m}:{s:02}"));
        } else {
            assert_eq!(fmt_time(ns), format!("{h}:{m:02}:{s:02}"));
        }
    }
}

#[test]
fn times_agree_with_double_arithmetic() {
    let mut seed: u64 = 17;
    for i in 0..20_000u64 {
        let ns = next(&mut seed) >> (i % 64);
        assert_eq!(fmt_time(ns), timed(ns));
    }
    for k in [9_007_199u64, 20_000_000, 400_000_000, 18_000_000_000] {
        for off in 0..5u64 {
            assert_eq!(fmt_time(k * 1_000_000_000 - off), timed(k * 1_000_000_000 - off));
        }
    }
    assert_eq!(fmt_time(u64::MAX), timed(u64::MAX));
}

#[test]
fn frames_are_counted_from_the_rate() {
    assert_eq!(frame_number(0, 25, 1), 0);
    assert_eq!(frame_number(1_000_000_000, 25, 1), 25);
    assert_eq!(frame_number(20_000_000, 25, 1), 1);
    assert_eq!(frame_number(19_999_999, 25, 1), 0);
    assert_eq!(frame_number(10_010_000_000, 30000, 1001), 300);
    assert_eq!(frame_number(u64::MAX, u32::MAX, 1), i64::MAX as u64);
    assert_eq!(frame_number(1, 1, u32::MAX), 0);
}

#[test]
fn frames_agree_with_double_arithmetic() {
    let mut seed: u64 = 19;
    for i in 0..20_000u64 {
        let ns = next(&mut seed) >> (i % 64);
        let n = ((next(&mut seed) as u32) >> (i % 31)).max(1);
        let d = ((next(&mut seed) as u32) >> (i % 29)).max(1);
        let expected = ((ns as f64 / 1e9) * (n as f64 / d as f64)).round() as i64;
        assert_eq!(frame_number(ns, n, d), expected as u64);
    }
}

#[test]
fn magnitudes_are_absolute_values() {
    assert_eq!(magnitude_of(-5), 5);
    assert_eq!(magnitude_of(7), 7);
    assert_eq!(magnitude_of(i32::MIN), 2_147_483_648);
}
