use rspi_bios::snapshot::{brand_short, HostIdentity, RawMetrics, Snapshot};

fn identity() -> HostIdentity {
    HostIdentity {
        kernel_version: "6.6.31".to_string(),
        os_version: "Raspbian GNU/Linux 11 (bullseye)".to_string(),
        cpu_arch: "aarch64".to_string(),
    }
}

fn raw(total_memory_bytes: u64, disk_bytes: u64) -> RawMetrics {
    RawMetrics {
        cpu_brand: "Cortex-A72".to_string(),
        cpu_count: 4,
        cpu_speed_mhz: 1800,
        total_memory_bytes,
        disk_bytes,
        network_rx_bytes: 1,
        network_tx_bytes: 2,
        process_count: 3,
        uptime_seconds: 4,
    }
}

#[test]
fn derived_memory_and_disk_fields() {
    let s = Snapshot::from_raw(raw(4_294_967_296, 30_000_000_000), &identity(), "Cortex-A");
    assert_eq!(s.extended_memory, (4_294_967_296 - 1_048_576_000) / 1000);
    assert_eq!(s.extended_memory, 3_246_391);
    assert_eq!(s.rounded_memory, 8_000_000_000);
    assert_eq!(s.primary_disk_bytes, 32_000_000_000);
    assert_eq!(s.primary_disk_bytes % 8_000_000_000, 0);
    assert!(s.primary_disk_bytes >= 30_000_000_000);
}

#[test]
fn memory_exactly_at_offset() {
    let s = Snapshot::from_raw(raw(1_048_576_000, 1), &identity(), "Cortex-A");
    assert_eq!(s.extended_memory, 0);
    assert_eq!(s.rounded_memory, 4_000_000_000);
    assert_eq!(s.primary_disk_bytes, 8_000_000_000);
}

#[test]
fn rounding_keeps_exact_multiples() {
    let s = Snapshot::from_raw(raw(8_000_000_000, 16_000_000_000), &identity(), "Cortex-A");
    assert_eq!(s.rounded_memory, 8_000_000_000);
    assert_eq!(s.primary_disk_bytes, 16_000_000_000);
}

#[test]
fn raw_fields_pass_through() {
    let s = Snapshot::from_raw(raw(4_294_967_296, 30_000_000_000), &identity(), "Cortex-A");
    assert_eq!(s.cpu_brand.as_str(), "Cortex-A72");
    assert_eq!(s.cpu_count, 4);
    assert_eq!(s.cpu_speed_mhz, 1800);
    assert_eq!(s.total_memory_bytes, 4_294_967_296);
    assert_eq!(s.network_rx_bytes, 1);
    assert_eq!(s.network_tx_bytes, 2);
    assert_eq!(s.process_count, 3);
    assert_eq!(s.uptime_seconds, 4);
    assert_eq!(s.kernel_version.as_str(), "6.6.31");
    assert_eq!(s.os_version.as_str(), "Raspbian GNU/Linux 11 (bullseye)");
    assert_eq!(s.cpu_arch.as_str(), "aarch64");
}

#[test]
fn brand_short_drops_two_chars_and_uppercases() {
    let s = Snapshot::from_raw(raw(4_294_967_296, 1), &identity(), "Cortex-A");
    assert_eq!(s.cpu_brand_short.as_str(), "CORTEX-A");
    assert_eq!(brand_short("Cortex-A72", "fallback").as_str(), "CORTEX-A");
    assert_eq!(brand_short("ab", "fallback").as_str(), "");
}

#[test]
fn brand_short_uses_fallback_when_brand_too_short() {
    assert_eq!(brand_short("x", "Cortex-A").as_str(), "CORTEX-A");
    assert_eq!(brand_short("", "Cortex-A").as_str(), "CORTEX-A");
}

#[test]
fn clone_preserves_every_field() {
    let s = Snapshot::from_raw(raw(4_294_967_296, 30_000_000_000), &identity(), "Cortex-A");
    let c = s.clone();
    assert_eq!(c.cpu_brand, s.cpu_brand);
    assert_eq!(c.cpu_brand_short, s.cpu_brand_short);
    assert_eq!(c.cpu_count, s.cpu_count);
    assert_eq!(c.cpu_speed_mhz, s.cpu_speed_mhz);
    assert_eq!(c.total_memory_bytes, s.total_memory_bytes);
    assert_eq!(c.extended_memory, s.extended_memory);
    assert_eq!(c.rounded_memory, s.rounded_memory);
    assert_eq!(c.primary_disk_bytes, s.primary_disk_bytes);
    assert_eq!(c.network_rx_bytes, s.network_rx_bytes);
    assert_eq!(c.network_tx_bytes, s.network_tx_bytes);
    assert_eq!(c.process_count, s.process_count);
    assert_eq!(c.uptime_seconds, s.uptime_seconds);
    assert_eq!(c.kernel_version, s.kernel_version);
    assert_eq!(c.os_version, s.os_version);
    assert_eq!(c.cpu_arch, s.cpu_arch);
}

#[test]
fn round_up_is_multiple_and_at_least_input() {
    assert_eq!(rspi_bios::arith::round_up(0, 8), 0);
    assert_eq!(rspi_bios::arith::round_up(1, 8), 8);
    assert_eq!(rspi_bios::arith::round_up(8, 8), 8);
    assert_eq!(rspi_bios::arith::round_up(9, 8), 16);
}
