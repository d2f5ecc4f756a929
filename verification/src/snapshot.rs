//! The snapshot data model: an immutable record of host telemetry taken at
//! one instant, with every derived field a pure function of the raw values
//! it was built from.

use vstd::prelude::*;

use crate::arith::{lemma_round_up_properties, round_up, spec_round_up};
use crate::text::{spec_upper, to_ascii_upper};

verus! {

/// Bytes subtracted from the raw memory total before the kilobyte scaling
/// of `extended_memory`.
pub const EXTENDED_MEMORY_OFFSET: u64 = 1_048_576_000;

/// `extended_memory` scales the offset memory total down by this divisor.
pub const EXTENDED_MEMORY_DIVISOR: u64 = 1000;

/// `rounded_memory` is the memory total rounded up to a multiple of this step.
pub const MEMORY_ROUND_STEP: u64 = 4_000_000_000;

/// `primary_disk_bytes` is the raw disk size rounded up to a multiple of this step.
pub const DISK_ROUND_STEP: u64 = 8_000_000_000;

/// Host identity strings resolved once at startup (with fallbacks applied),
/// then copied into every snapshot.
pub struct HostIdentity {
    pub kernel_version: String,
    pub os_version: String,
    pub cpu_arch: String,
}

/// The raw values one sampling pass hands over, after per-field fallbacks
/// have already been substituted for probes that yielded nothing.
pub struct RawMetrics {
    pub cpu_brand: String,
    pub cpu_count: usize,
    pub cpu_speed_mhz: u64,
    pub total_memory_bytes: u64,
    /// Measured size of the primary disk, not yet rounded.
    pub disk_bytes: u64,
    /// Cumulative bytes received across all interfaces since probe creation.
    pub network_rx_bytes: u64,
    /// Cumulative bytes transmitted across all interfaces since probe creation.
    pub network_tx_bytes: u64,
    pub process_count: usize,
    pub uptime_seconds: u64,
}

/// The short form of a CPU brand string: the brand with its last two
/// characters dropped, upper-cased; the (upper-cased) fallback when the
/// brand is too short to shorten.
pub open spec fn spec_brand_short(brand: Seq<char>, fallback: Seq<char>) -> Seq<char> {
    if brand.len() >= 2 {
        spec_upper(brand.subrange(0, brand.len() - 2))
    } else {
        spec_upper(fallback)
    }
}

/// An immutable point-in-time record of host telemetry.
pub struct Snapshot {
    pub cpu_brand: String,
    pub cpu_brand_short: String,
    pub cpu_count: usize,
    pub cpu_speed_mhz: u64,
    pub total_memory_bytes: u64,
    pub extended_memory: u64,
    pub rounded_memory: u64,
    pub primary_disk_bytes: u64,
    pub network_rx_bytes: u64,
    pub network_tx_bytes: u64,
    pub process_count: usize,
    pub uptime_seconds: u64,
    pub kernel_version: String,
    pub os_version: String,
    pub cpu_arch: String,
}

impl Snapshot {
    /// Every derived field is the fixed pure function of the raw fields
    /// beside it; no hidden state. (The short brand is pinned only where the
    /// brand has two or more characters; below that it came from the
    /// configured fallback, which the snapshot does not carry.)
    pub open spec fn wf(self) -> bool {
        &&& self.total_memory_bytes >= EXTENDED_MEMORY_OFFSET
        &&& self.extended_memory == (self.total_memory_bytes - EXTENDED_MEMORY_OFFSET)
            / (EXTENDED_MEMORY_DIVISOR as int)
        &&& self.rounded_memory == spec_round_up(
            self.total_memory_bytes as nat,
            MEMORY_ROUND_STEP as nat,
        )
        &&& self.primary_disk_bytes % DISK_ROUND_STEP == 0
        &&& (self.cpu_brand@.len() >= 2 ==> self.cpu_brand_short@ == spec_upper(
            self.cpu_brand@.subrange(0, self.cpu_brand@.len() - 2),
        ))
    }

    /// Build one snapshot from raw metrics, the startup identity strings,
    /// and the configured short-brand fallback.
    pub fn from_raw(raw: RawMetrics, identity: &HostIdentity, brand_short_fallback: &str) -> (s:
        Snapshot)
        requires
            raw.total_memory_bytes >= EXTENDED_MEMORY_OFFSET,
            raw.total_memory_bytes + MEMORY_ROUND_STEP <= u64::MAX,
            raw.disk_bytes + DISK_ROUND_STEP <= u64::MAX,
        ensures
            s.wf(),
            s.cpu_brand == raw.cpu_brand,
            s.cpu_brand_short@ == spec_brand_short(raw.cpu_brand@, brand_short_fallback@),
            s.cpu_count == raw.cpu_count,
            s.cpu_speed_mhz == raw.cpu_speed_mhz,
            s.total_memory_bytes == raw.total_memory_bytes,
            s.primary_disk_bytes == spec_round_up(raw.disk_bytes as nat, DISK_ROUND_STEP as nat),
            s.primary_disk_bytes >= raw.disk_bytes,
            s.network_rx_bytes == raw.network_rx_bytes,
            s.network_tx_bytes == raw.network_tx_bytes,
            s.process_count == raw.process_count,
            s.uptime_seconds == raw.uptime_seconds,
            s.kernel_version == identity.kernel_version,
            s.os_version == identity.os_version,
            s.cpu_arch == identity.cpu_arch,
    {
        let cpu_brand_short = brand_short(raw.cpu_brand.as_str(), brand_short_fallback);
        let extended_memory = (raw.total_memory_bytes - EXTENDED_MEMORY_OFFSET)
            / EXTENDED_MEMORY_DIVISOR;
        let rounded_memory = round_up(raw.total_memory_bytes, MEMORY_ROUND_STEP);
        let primary_disk_bytes = round_up(raw.disk_bytes, DISK_ROUND_STEP);
        proof {
            lemma_round_up_properties(raw.disk_bytes as nat, DISK_ROUND_STEP as nat);
        }
        Snapshot {
            cpu_brand: raw.cpu_brand,
            cpu_brand_short,
            cpu_count: raw.cpu_count,
            cpu_speed_mhz: raw.cpu_speed_mhz,
            total_memory_bytes: raw.total_memory_bytes,
            extended_memory,
            rounded_memory,
            primary_disk_bytes,
            network_rx_bytes: raw.network_rx_bytes,
            network_tx_bytes: raw.network_tx_bytes,
            process_count: raw.process_count,
            uptime_seconds: raw.uptime_seconds,
            kernel_version: identity.kernel_version.clone(),
            os_version: identity.os_version.clone(),
            cpu_arch: identity.cpu_arch.clone(),
        }
    }
}

impl Clone for Snapshot {
    /// A clone is equal to the original in every field.
    fn clone(&self) -> (res: Self)
        ensures
            res == *self,
    {
        Snapshot {
            cpu_brand: self.cpu_brand.clone(),
            cpu_brand_short: self.cpu_brand_short.clone(),
            cpu_count: self.cpu_count,
            cpu_speed_mhz: self.cpu_speed_mhz,
            total_memory_bytes: self.total_memory_bytes,
            extended_memory: self.extended_memory,
            rounded_memory: self.rounded_memory,
            primary_disk_bytes: self.primary_disk_bytes,
            network_rx_bytes: self.network_rx_bytes,
            network_tx_bytes: self.network_tx_bytes,
            process_count: self.process_count,
            uptime_seconds: self.uptime_seconds,
            kernel_version: self.kernel_version.clone(),
            os_version: self.os_version.clone(),
            cpu_arch: self.cpu_arch.clone(),
        }
    }
}

/// The short brand: drop the last two characters and upper-case the rest,
/// or upper-case the fallback when the brand has fewer than two characters.
pub fn brand_short(brand: &str, fallback: &str) -> (r: String)
    ensures
        r@ == spec_brand_short(brand@, fallback@),
{
    let n = brand.unicode_len();
    if n >= 2 {
        let prefix = brand.substring_char(0, n - 2);
        to_ascii_upper(prefix)
    } else {
        to_ascii_upper(fallback)
    }
}

/// Law: in every well-formed snapshot the derived fields follow the fixed
/// formulas — `extended_memory` is the offset, kilobyte-scaled memory total;
/// `rounded_memory` is the memory total rounded up to a multiple of
/// `MEMORY_ROUND_STEP`; and `primary_disk_bytes` is a multiple of
/// `DISK_ROUND_STEP`.
pub proof fn lemma_derived_fields(s: Snapshot)
    requires
        s.wf(),
    ensures
        s.extended_memory == (s.total_memory_bytes - EXTENDED_MEMORY_OFFSET)
            / (EXTENDED_MEMORY_DIVISOR as int),
        s.rounded_memory == spec_round_up(s.total_memory_bytes as nat, MEMORY_ROUND_STEP as nat),
        s.rounded_memory % MEMORY_ROUND_STEP == 0,
        s.rounded_memory >= s.total_memory_bytes,
        s.primary_disk_bytes % DISK_ROUND_STEP == 0,
{
    lemma_round_up_properties(s.total_memory_bytes as nat, MEMORY_ROUND_STEP as nat);
}

} // verus!
