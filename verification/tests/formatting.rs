use flamingo_agent::agent::{log_line, MetricsNote, MetricsWatch};
use flamingo_agent::metrics::{
    format_utc, human_bytes, utc_in_range, Metrics, MAX_UTC_MILLIS, MIN_UTC_MILLIS,
};

/// The size rendering as the agent computed it with floating point.
fn float_human_bytes(bytes: u64) -> String {
    const UNITS: [&str; 4] = ["B", "KiB", "MiB", "GiB"];
    let mut value = bytes as f64;
    let mut unit = 0;
    while value >= 1024.0 && unit < UNITS.len() - 1 {
        value /= 1024.0;
        unit += 1;
    }
    if unit == 0 {
        format!("{bytes} {}", UNITS[0])
    } else {
        format!("{value:.1} {}", UNITS[unit])
    }
}

#[test]
fn decimal_renders_like_to_string() {
    for n in [0u64, 7, 10, 99, 100, 12345, u32::MAX as u64, u64::MAX] {
        let m = Metrics { utc_ms: 0, rss_bytes: n };
        assert_eq!(m.to_arg_with(""), format!("utc=;rss_bytes={n}"));
    }
}

#[test]
fn human_bytes_small_values_are_plain_bytes() {
    assert_eq!(human_bytes(0), "0 B");
    assert_eq!(human_bytes(512), "512 B");
    assert_eq!(human_bytes(1023), "1023 B");
}

#[test]
fn human_bytes_exact_values() {
    assert_eq!(human_bytes(1024), "1.0 KiB");
    assert_eq!(human_bytes(1536), "1.5 KiB");
    assert_eq!(human_bytes(1048576), "1.0 MiB");
    assert_eq!(human_bytes(5 * 1073741824), "5.0 GiB");
    assert_eq!(human_bytes(1048575), "1024.0 KiB");
}

#[test]
fn human_bytes_ties_round_to_even() {
    // 1.25 KiB and 1.75 KiB are exact ties at one decimal.
    assert_eq!(human_bytes(1280), float_human_bytes(1280));
    assert_eq!(human_bytes(1792), float_human_bytes(1792));
    assert_eq!(human_bytes(1280), "1.2 KiB");
    assert_eq!(human_bytes(1792), "1.8 KiB");
}

#[test]
fn human_bytes_matches_float_rendering() {
    let mut samples: Vec<u64> = vec![
        1024, 1025, 1100, 2047, 2048, 10_000, 65_535, 1_000_000, 1_048_575, 1_048_576,
        25_000_000, 123_456_789, 1_073_741_823, 1_073_741_824, 10_000_000_000,
        (1u64 << 53) - 1, 1u64 << 53, (1u64 << 53) + 1, (1u64 << 53) + 3,
        (1u64 << 60) - 1, (1u64 << 60) + 12345, u64::MAX - 1, u64::MAX,
    ];
    // Values just around ties in each unit, and above 2^53 where `as f64` rounds.
    for k in [1u64, 3, 5, 7, 11, 13, 17, 19, 1001, 123457] {
        samples.push(k * 1024 / 20 * 1);
        samples.push(k * 1024 / 4);
        samples.push(k * (1 << 20) / 4);
        samples.push(k * (1 << 30) / 4 + 1);
        samples.push(k * (1 << 28) * 5);
        samples.push(k * (1 << 28) * 5 - 1);
        samples.push((k << 54) + (1 << 28) * 5 - 1);
    }
    let mut x: u64 = 0x9E37_79B9_7F4A_7C15;
    for _ in 0..2000 {
        x ^= x << 13;
        x ^= x >> 7;
        x ^= x << 17;
        samples.push(x >> (x % 64));
    }
    for b in samples {
        assert_eq!(human_bytes(b), float_human_bytes(b), "bytes = {b}");
    }
}

#[test]
fn format_utc_epoch_and_examples() {
    assert_eq!(format_utc(0), "1970-01-01T00:00:00.000Z");
    assert_eq!(format_utc(1_789_500_031_123), "2026-09-15T19:20:31.123Z");
    assert_eq!(format_utc(-1), "1969-12-31T23:59:59.999Z");
}

#[test]
fn utc_range_matches_chrono() {
    assert!(utc_in_range(0));
    assert!(utc_in_range(MIN_UTC_MILLIS));
    assert!(utc_in_range(MAX_UTC_MILLIS));
    assert!(!utc_in_range(MIN_UTC_MILLIS - 1));
    assert!(!utc_in_range(MAX_UTC_MILLIS + 1));
    assert!(chrono::DateTime::from_timestamp_millis(MIN_UTC_MILLIS).is_some());
    assert!(chrono::DateTime::from_timestamp_millis(MAX_UTC_MILLIS).is_some());
    assert!(chrono::DateTime::from_timestamp_millis(MIN_UTC_MILLIS - 1).is_none());
    assert!(chrono::DateTime::from_timestamp_millis(MAX_UTC_MILLIS + 1).is_none());
    assert_eq!(chrono::DateTime::<chrono::Utc>::MIN_UTC.timestamp_millis(), MIN_UTC_MILLIS);
    let extreme = format_utc(MAX_UTC_MILLIS);
    assert_eq!(extreme, "+262142-12-31T23:59:59.999Z");
    assert_eq!(format_utc(MIN_UTC_MILLIS), "-262143-01-01T00:00:00.000Z");
    for ms in [MIN_UTC_MILLIS, -62_135_596_800_001, 0, 253_402_300_800_000, MAX_UTC_MILLIS] {
        let text = format_utc(ms);
        assert!(text.chars().all(|c| c.is_ascii_digit() || "+-:.TZ".contains(c)), "{text}");
        let m = Metrics { utc_ms: ms, rss_bytes: 1 };
        assert!(!m.to_arg().contains(' '));
    }
}

#[test]
fn to_arg_is_one_token() {
    let m = Metrics { utc_ms: 1_789_500_031_123, rss_bytes: 4_321_000 };
    let arg = m.to_arg();
    assert_eq!(arg, "utc=2026-09-15T19:20:31.123Z;rss_bytes=4321000");
    assert!(!arg.contains(' ') && !arg.contains('"') && !arg.contains('\''));
}

#[test]
fn argument_and_line_around_a_given_time() {
    let m = Metrics { utc_ms: 0, rss_bytes: 2048 };
    assert_eq!(m.to_arg_with("T0"), "utc=T0;rss_bytes=2048");
    assert_eq!(m.to_display_with("T0"), "utc=T0 rss=2.0 KiB (2048 bytes)");
}

#[test]
fn to_display_shows_human_size() {
    let m = Metrics { utc_ms: 0, rss_bytes: 1536 };
    assert_eq!(m.to_display(), "utc=1970-01-01T00:00:00.000Z rss=1.5 KiB (1536 bytes)");
}

#[test]
fn log_line_pads_level() {
    assert_eq!(log_line("T", "INFO", "hello"), "T [INFO ] hello\n");
    assert_eq!(log_line("T", "ERROR", "x"), "T [ERROR] x\n");
    assert_eq!(log_line("T", "WARN", ""), "T [WARN ] \n");
    assert_eq!(log_line("T", "LONGER", "y"), "T [LONGER] y\n");
}

#[test]
fn metrics_watch_counts_failures() {
    let mut w = MetricsWatch::new();
    assert_eq!(w.record(true), MetricsNote::Collected);
    assert_eq!(w.record(false), MetricsNote::Failed { attempt: 1 });
    assert_eq!(w.record(false), MetricsNote::Failed { attempt: 2 });
    assert_eq!(w.record(true), MetricsNote::Recovered { after: 2 });
    assert_eq!(w.record(true), MetricsNote::Collected);
}
