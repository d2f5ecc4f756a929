//! The sampling pass: turn one round of probe readings into a snapshot —
//! degrading per field to the configured fallbacks where a probe yielded
//! nothing — and publish it to the hub. The probes themselves (CPU table,
//! disk list, network interfaces, process table) are host I/O and live
//! outside this crate; they are exclusively owned by the sampling task and
//! hand in plain values.

use vstd::prelude::*;

use crate::hub::Hub;
use crate::snapshot::{
    HostIdentity, RawMetrics, Snapshot, DISK_ROUND_STEP, EXTENDED_MEMORY_OFFSET, MEMORY_ROUND_STEP,
};

verus! {

/// `o`'s value, or `d` where the probe yielded nothing.
pub open spec fn spec_or<T>(o: Option<T>, d: T) -> T {
    match o {
        Some(v) => v,
        None => d,
    }
}

/// `x` capped at the largest `u64`.
pub open spec fn spec_cap_u64(x: int) -> int {
    if x <= u64::MAX {
        x
    } else {
        u64::MAX as int
    }
}

/// Sum of the cumulative received-byte counters of a list of interfaces.
pub open spec fn spec_sum_rx(s: Seq<(u64, u64)>) -> int
    decreases s.len(),
{
    if s.len() == 0 {
        0
    } else {
        spec_sum_rx(s.drop_last()) + s.last().0
    }
}

/// Sum of the cumulative transmitted-byte counters of a list of interfaces.
pub open spec fn spec_sum_tx(s: Seq<(u64, u64)>) -> int
    decreases s.len(),
{
    if s.len() == 0 {
        0
    } else {
        spec_sum_tx(s.drop_last()) + s.last().1
    }
}

/// What one round of probing yielded. A `None` means that probe returned no
/// data this round (no CPUs enumerable, no disks present, ...); the
/// fallback is substituted for that one field and the round is never fatal.
pub struct ProbeReadings {
    pub cpu_brand: Option<String>,
    pub cpu_count: usize,
    pub cpu_speed_mhz: Option<u64>,
    pub total_memory_bytes: u64,
    /// Measured size of the primary disk, if any disk is present.
    pub disk_bytes: Option<u64>,
    /// Per-interface cumulative (received, transmitted) byte counters,
    /// monotonic since the probe's own creation.
    pub per_interface_totals: Vec<(u64, u64)>,
    pub process_count: usize,
    pub uptime_seconds: u64,
}

/// The configured per-field fallback values.
pub struct Fallbacks {
    pub cpu_brand: String,
    pub cpu_brand_short: String,
    pub cpu_speed_mhz: u64,
    pub disk_bytes: u64,
    pub kernel_version: String,
    pub os_version: String,
    pub cpu_arch: String,
}

/// Which probes one tick refreshes: process and network counters every
/// tick; CPU and disk topology only on the first, and cached afterwards
/// (assumed stable while running).
pub struct RefreshPlan {
    pub refresh_processes: bool,
    pub refresh_networks: bool,
    pub refresh_topology: bool,
}

/// The refresh plan for a tick.
pub fn plan_for_tick(first_tick: bool) -> (p: RefreshPlan)
    ensures
        p.refresh_processes,
        p.refresh_networks,
        p.refresh_topology == first_tick,
{
    RefreshPlan {
        refresh_processes: true,
        refresh_networks: true,
        refresh_topology: first_tick,
    }
}

/// Resolve the host identity strings once at startup, substituting the
/// configured fallback for any the host could not report.
pub fn resolve_identity(
    kernel_version: Option<String>,
    os_version: Option<String>,
    cpu_arch: Option<String>,
    fallbacks: &Fallbacks,
) -> (id: HostIdentity)
    ensures
        id.kernel_version == spec_or(kernel_version, fallbacks.kernel_version),
        id.os_version == spec_or(os_version, fallbacks.os_version),
        id.cpu_arch == spec_or(cpu_arch, fallbacks.cpu_arch),
{
    HostIdentity {
        kernel_version: match kernel_version {
            Some(v) => v,
            None => fallbacks.kernel_version.clone(),
        },
        os_version: match os_version {
            Some(v) => v,
            None => fallbacks.os_version.clone(),
        },
        cpu_arch: match cpu_arch {
            Some(v) => v,
            None => fallbacks.cpu_arch.clone(),
        },
    }
}

/// `a + b`, capped at the largest `u64`.
fn saturating_add_u64(a: u64, b: u64) -> (r: u64)
    ensures
        r == spec_cap_u64(a + b),
{
    if a > u64::MAX - b {
        u64::MAX
    } else {
        a + b
    }
}

/// Total received and transmitted bytes across all interfaces, each sum
/// capped at the largest `u64` rather than wrapping.
pub fn sum_network_totals(totals: &Vec<(u64, u64)>) -> (r: (u64, u64))
    ensures
        r.0 == spec_cap_u64(spec_sum_rx(totals@)),
        r.1 == spec_cap_u64(spec_sum_tx(totals@)),
{
    let mut rx: u64 = 0;
    let mut tx: u64 = 0;
    let n = totals.len();
    let mut i: usize = 0;
    while i < n
        invariant
            n == totals@.len(),
            i <= n,
            rx == spec_cap_u64(spec_sum_rx(totals@.subrange(0, i as int))),
            tx == spec_cap_u64(spec_sum_tx(totals@.subrange(0, i as int))),
        decreases n - i,
    {
        let (irx, itx) = totals[i];
        proof {
            let pre = totals@.subrange(0, i as int);
            let post = totals@.subrange(0, i + 1 as int);
            assert(post.drop_last() =~= pre);
            assert(post.last() == totals@[i as int]);
        }
        rx = saturating_add_u64(rx, irx);
        tx = saturating_add_u64(tx, itx);
        i += 1;
    }
    proof {
        assert(totals@.subrange(0, n as int) =~= totals@);
    }
    (rx, tx)
}

/// Build the raw metrics for one snapshot from the probe readings,
/// substituting fallbacks per field and summing the network counters.
pub fn build_raw(readings: ProbeReadings, fallbacks: &Fallbacks) -> (raw: RawMetrics)
    ensures
        raw.cpu_brand == spec_or(readings.cpu_brand, fallbacks.cpu_brand),
        raw.cpu_count == readings.cpu_count,
        raw.cpu_speed_mhz == spec_or(readings.cpu_speed_mhz, fallbacks.cpu_speed_mhz),
        raw.total_memory_bytes == readings.total_memory_bytes,
        raw.disk_bytes == spec_or(readings.disk_bytes, fallbacks.disk_bytes),
        raw.network_rx_bytes == spec_cap_u64(spec_sum_rx(readings.per_interface_totals@)),
        raw.network_tx_bytes == spec_cap_u64(spec_sum_tx(readings.per_interface_totals@)),
        raw.process_count == readings.process_count,
        raw.uptime_seconds == readings.uptime_seconds,
{
    let (network_rx_bytes, network_tx_bytes) = sum_network_totals(
        &readings.per_interface_totals,
    );
    RawMetrics {
        cpu_brand: match readings.cpu_brand {
            Some(b) => b,
            None => fallbacks.cpu_brand.clone(),
        },
        cpu_count: readings.cpu_count,
        cpu_speed_mhz: readings.cpu_speed_mhz.unwrap_or(fallbacks.cpu_speed_mhz),
        total_memory_bytes: readings.total_memory_bytes,
        disk_bytes: readings.disk_bytes.unwrap_or(fallbacks.disk_bytes),
        network_rx_bytes,
        network_tx_bytes,
        process_count: readings.process_count,
        uptime_seconds: readings.uptime_seconds,
    }
}

/// One sampling tick after the probes have been refreshed: build a snapshot
/// from the readings (degrading per field to the fallbacks) and publish it
/// to the hub. Returns the published snapshot.
pub fn sample_and_publish(
    hub: &mut Hub,
    readings: ProbeReadings,
    fallbacks: &Fallbacks,
    identity: &HostIdentity,
) -> (s: Snapshot)
    requires
        old(hub).wf(),
        !old(hub).is_closed(),
        old(hub).history().len() < u64::MAX,
        readings.total_memory_bytes >= EXTENDED_MEMORY_OFFSET,
        readings.total_memory_bytes + MEMORY_ROUND_STEP <= u64::MAX,
        spec_or(readings.disk_bytes, fallbacks.disk_bytes) + DISK_ROUND_STEP <= u64::MAX,
    ensures
        final(hub).wf(),
        !final(hub).is_closed(),
        final(hub).history() == old(hub).history().push(s),
        s.wf(),
        s.cpu_brand == spec_or(readings.cpu_brand, fallbacks.cpu_brand),
        s.cpu_count == readings.cpu_count,
        s.cpu_speed_mhz == spec_or(readings.cpu_speed_mhz, fallbacks.cpu_speed_mhz),
        s.total_memory_bytes == readings.total_memory_bytes,
        s.network_rx_bytes == spec_cap_u64(spec_sum_rx(readings.per_interface_totals@)),
        s.network_tx_bytes == spec_cap_u64(spec_sum_tx(readings.per_interface_totals@)),
        s.process_count == readings.process_count,
        s.uptime_seconds == readings.uptime_seconds,
        s.kernel_version == identity.kernel_version,
        s.os_version == identity.os_version,
        s.cpu_arch == identity.cpu_arch,
{
    let raw = build_raw(readings, fallbacks);
    let snapshot = Snapshot::from_raw(raw, identity, fallbacks.cpu_brand_short.as_str());
    let published = snapshot.clone();
    hub.publish(snapshot);
    published
}

} // verus!
