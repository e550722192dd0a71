use dua_core::ByteFormat;
use dua_core::Color;
use dua_core::WalkOptions;

fn options(format: ByteFormat) -> WalkOptions {
    WalkOptions { threads: 1, format, color: Color::Disabled }
}

#[test]
fn raw_bytes_zero() {
    assert_eq!(options(ByteFormat::Bytes).format_bytes(0), "0 b");
}

#[test]
fn raw_bytes_small() {
    assert_eq!(options(ByteFormat::Bytes).format_bytes(42), "42 b");
}

#[test]
fn raw_bytes_largest() {
    assert_eq!(
        options(ByteFormat::Bytes).format_bytes(u64::MAX),
        "18446744073709551615 b"
    );
}

#[test]
fn binary_below_one_kibibyte() {
    assert_eq!(options(ByteFormat::Binary).format_bytes(10), "      10   B");
}

#[test]
fn binary_exactly_one_kibibyte() {
    assert_eq!(options(ByteFormat::Binary).format_bytes(1024), "    1.00 KiB");
}

#[test]
fn binary_exactly_one_mebibyte() {
    assert_eq!(options(ByteFormat::Binary).format_bytes(1048576), "    1.00 MiB");
}

#[test]
fn binary_fractional_mebibytes() {
    assert_eq!(options(ByteFormat::Binary).format_bytes(1500000), "    1.43 MiB");
}

#[test]
fn binary_largest_count() {
    assert_eq!(options(ByteFormat::Binary).format_bytes(u64::MAX), "   16.00 EiB");
}

#[test]
fn metric_below_one_kilobyte() {
    assert_eq!(options(ByteFormat::Metric).format_bytes(999), "     999  B");
}

#[test]
fn metric_fractional_megabytes() {
    assert_eq!(options(ByteFormat::Metric).format_bytes(1500000), "    1.50 MB");
}

#[test]
fn metric_exactly_one_kilobyte() {
    assert_eq!(options(ByteFormat::Metric).format_bytes(1000), "    1.00 kB");
}

#[test]
fn binary_units_are_binary_only() {
    let opts = options(ByteFormat::Binary);
    for b in [0u64, 1023, 1024, 4096, 1048576, 5000000000, u64::MAX] {
        let s = opts.format_bytes(b);
        let unit: String = s.chars().filter(|c| c.is_alphabetic()).collect();
        assert!(
            ["B", "KiB", "MiB", "GiB", "TiB", "PiB", "EiB"].contains(&unit.as_str()),
            "unexpected unit in {:?}",
            s
        );
    }
}

#[test]
fn metric_units_are_metric_only() {
    let opts = options(ByteFormat::Metric);
    for b in [0u64, 999, 1000, 4096, 1048576, 5000000000, u64::MAX] {
        let s = opts.format_bytes(b);
        let unit: String = s.chars().filter(|c| c.is_alphabetic()).collect();
        assert!(
            ["B", "kB", "MB", "GB", "TB", "PB", "EB"].contains(&unit.as_str()),
            "unexpected unit in {:?}",
            s
        );
    }
}
