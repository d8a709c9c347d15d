use hostprobe::fixed::{decimal_text, Fraction};
use hostprobe::host::{DiskInfo, MemoryInfo};
use hostprobe::measure::{ping_mean, throughput_mbps, Elapsed};
use hostprobe::units::{bytes_to_gb, bytes_to_mb, remaining};

fn disk(total: u64, available: u64) -> DiskInfo {
    DiskInfo {
        name: String::from("sda1"),
        mount_point: String::from("/"),
        file_system: String::from("ext4"),
        total_space: total,
        available_space: available,
    }
}

#[test]
fn mb_conversion_truncates() {
    assert_eq!(bytes_to_mb(1_048_575), 0);
    assert_eq!(bytes_to_mb(1_048_576), 1);
    assert_eq!(bytes_to_mb(5 * 1024 * 1024 + 1023), 5);
    assert_eq!(bytes_to_mb(0), 0);
}

#[test]
fn gb_conversion_truncates() {
    assert_eq!(bytes_to_gb(3 * 1024 * 1024 * 1024 - 1), 2);
    assert_eq!(bytes_to_gb(3 * 1024 * 1024 * 1024), 3);
    assert_eq!(bytes_to_gb(u64::MAX), 17_179_869_183);
}

#[test]
fn remaining_never_goes_below_zero() {
    assert_eq!(remaining(10, 3), 7);
    assert_eq!(remaining(3, 10), 0);
    assert_eq!(remaining(u64::MAX, 0), u64::MAX);
}

#[test]
fn fixed2_rendering() {
    let cases: [(u128, u64, &str); 9] = [
        (800, 1, "800.00"),
        (0, 1, "0.00"),
        (1, 3, "0.33"),
        (2, 3, "0.67"),
        (1, 8, "0.12"),
        (3, 8, "0.38"),
        (1999, 2000, "1.00"),
        (12345, 100, "123.45"),
        (u128::MAX, 1, "340282366920938463463374607431768211455.00"),
    ];
    for (num, den, text) in cases {
        assert_eq!(Fraction { num, den }.to_fixed2(), text);
    }
}

#[test]
fn decimal_rendering() {
    assert_eq!(decimal_text(0), "0");
    assert_eq!(decimal_text(7), "7");
    assert_eq!(decimal_text(1020), "1020");
}

#[test]
fn throughput_of_full_download_in_one_second() {
    let f = throughput_mbps(100_000_000, Elapsed::from_nanos(1_000_000_000));
    assert_eq!(f.num, 800_000_000_000);
    assert_eq!(f.den, 1_000_000_000);
    assert_eq!(f.to_fixed2(), "800.00");
}

#[test]
fn throughput_exact_values() {
    assert_eq!(throughput_mbps(50_000_000, Elapsed::from_nanos(500_000_000)).to_fixed2(), "800.00");
    assert_eq!(throughput_mbps(10_000_000, Elapsed::from_nanos(200_000_000)).to_fixed2(), "400.00");
    assert_eq!(throughput_mbps(1, Elapsed::from_nanos(3_000)).to_fixed2(), "2.67");
    assert_eq!(throughput_mbps(0, Elapsed::from_nanos(1)).to_fixed2(), "0.00");
}

#[test]
fn elapsed_millis_truncate() {
    assert_eq!(Elapsed::from_nanos(1_999_999).as_millis(), 1);
    assert_eq!(Elapsed::from_nanos(100_000_000).as_millis(), 100);
}

#[test]
fn ping_mean_of_four_successes() {
    let f = ping_mean(&vec![Some(10), Some(20), Some(30), Some(40)]);
    assert_eq!((f.num, f.den), (100, 4));
    assert_eq!(f.to_fixed2(), "25.00");
}

#[test]
fn ping_mean_skips_failures() {
    let f = ping_mean(&vec![Some(10), None, Some(30), None]);
    assert_eq!((f.num, f.den), (40, 2));
    assert_eq!(f.to_fixed2(), "20.00");
}

#[test]
fn ping_mean_all_failed_is_zero() {
    let f = ping_mean(&vec![None, None, None, None]);
    assert_eq!((f.num, f.den), (0, 1));
    assert_eq!(f.to_fixed2(), "0.00");
    let g = ping_mean(&Vec::new());
    assert_eq!((g.num, g.den), (0, 1));
}

#[test]
fn ping_mean_of_largest_values() {
    let f = ping_mean(&vec![Some(u64::MAX), Some(u64::MAX)]);
    assert_eq!(f.num, 2 * (u64::MAX as u128));
    assert_eq!(f.den, 2);
}

#[test]
fn disk_figures() {
    let gib: u64 = 1024 * 1024 * 1024;
    let d = disk(100 * gib, 25 * gib + 5);
    assert_eq!(d.total_gb(), 100);
    assert_eq!(d.available_gb(), 25);
    assert_eq!(d.used_space(), 75 * gib - 5);
    assert_eq!(d.used_gb(), 74);
    let p = d.usage_percent().unwrap();
    assert_eq!(p.den, 100 * gib);
    assert_eq!(p.to_fixed2(), "75.00");
}

#[test]
fn disk_usage_omitted_for_zero_size() {
    let d = disk(0, 0);
    assert!(d.usage_percent().is_none());
    assert_eq!(d.used_gb(), 0);
}

#[test]
fn disk_usage_one_third() {
    let p = disk(3, 2).usage_percent().unwrap();
    assert_eq!((p.num, p.den), (100, 3));
    assert_eq!(p.to_fixed2(), "33.33");
}

#[test]
fn memory_figures() {
    let mib: u64 = 1024 * 1024;
    let m = MemoryInfo {
        total_memory: 8192 * mib + 7,
        used_memory: 3000 * mib + mib - 1,
        total_swap: 2048 * mib,
        used_swap: 0,
    };
    assert_eq!(m.total_mb(), 8192);
    assert_eq!(m.used_mb(), 3000);
    assert_eq!(m.free_mb(), 5191);
    assert_eq!(m.total_swap_mb(), 2048);
    assert_eq!(m.used_swap_mb(), 0);
}

#[test]
fn memory_free_is_zero_when_used_exceeds_total() {
    let m = MemoryInfo { total_memory: 10, used_memory: 20, total_swap: 0, used_swap: 0 };
    assert_eq!(m.free_mb(), 0);
}
