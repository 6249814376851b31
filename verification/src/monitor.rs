//! Telemetry snapshots, and the rates derived from two of them.

use crate::gpu::{clamp_percent, FULL_SCALE};
use vstd::prelude::*;

verus! {

/// Top of the scale on which network traffic is shown: two thousand
/// kibibytes, in thousandths.
pub const NETWORK_SCALE: i64 = 2_000_000;

/// The cumulative byte counters of one network interface.
#[derive(Clone, Copy, Debug, PartialEq, Eq, Structural)]
pub struct InterfaceCounters {
    pub received: u64,
    pub transmitted: u64,
}

/// One measurement of the host: processor, memory, network and GPU.
///
/// Utilisations are thousandths of a percent. An absent GPU reading means
/// that no backend could tell, which is not the same as a reading of zero.
#[derive(Clone, Copy, Debug, PartialEq, Eq, Structural)]
pub struct MonitorData {
    pub cpu_usage: i64,
    pub ram_used: u64,
    pub ram_total: u64,
    pub rx_bytes: u64,
    pub tx_bytes: u64,
    pub gpu_usage: Option<i64>,
}

/// Bytes moved between two snapshots.
#[derive(Clone, Copy, Debug, PartialEq, Eq, Structural)]
pub struct RateSample {
    pub rx_rate: u64,
    pub tx_rate: u64,
}

/// The bytes received over all `interfaces`.
pub open spec fn total_received(interfaces: Seq<InterfaceCounters>) -> nat
    decreases interfaces.len(),
{
    if interfaces.len() == 0 {
        0
    } else {
        total_received(interfaces.drop_last()) + interfaces.last().received as nat
    }
}

/// The bytes transmitted over all `interfaces`.
pub open spec fn total_transmitted(interfaces: Seq<InterfaceCounters>) -> nat
    decreases interfaces.len(),
{
    if interfaces.len() == 0 {
        0
    } else {
        total_transmitted(interfaces.drop_last()) + interfaces.last().transmitted as nat
    }
}

/// A byte count as a counter holds it: the largest value stands for all that
/// exceed it.
pub open spec fn as_counter(total: nat) -> u64 {
    if total > u64::MAX {
        u64::MAX
    } else {
        total as u64
    }
}

/// The smaller of two byte counts.
pub open spec fn lesser_count(a: u64, b: u64) -> u64 {
    if a <= b {
        a
    } else {
        b
    }
}

/// How far a counter moved from `before` to `now`; a counter that went back
/// was reset, and counts as not having moved.
pub open spec fn counter_delta(before: u64, now: u64) -> u64 {
    if now >= before {
        (now - before) as u64
    } else {
        0
    }
}

/// The bytes moved from the snapshot `prev` to the snapshot `curr`; nothing
/// when there is no earlier snapshot.
pub open spec fn rate_between(prev: Option<MonitorData>, curr: MonitorData) -> RateSample {
    match prev {
        Some(before) => RateSample {
            rx_rate: counter_delta(before.rx_bytes, curr.rx_bytes),
            tx_rate: counter_delta(before.tx_bytes, curr.tx_bytes),
        },
        None => RateSample { rx_rate: 0, tx_rate: 0 },
    }
}

/// `bytes` moved in `elapsed_millis` milliseconds as bytes per second,
/// rounded down.
pub open spec fn bytes_per_second(bytes: u64, elapsed_millis: u64) -> u64
    recommends
        elapsed_millis > 0,
{
    as_counter(((bytes * 1000) / (elapsed_millis as int)) as nat)
}

/// A rate over `elapsed_millis` milliseconds as a rate per second; there is
/// none over no time at all.
pub open spec fn rate_per_second(rate: RateSample, elapsed_millis: u64) -> Option<RateSample> {
    if elapsed_millis == 0 {
        None
    } else {
        Some(
            RateSample {
                rx_rate: bytes_per_second(rate.rx_rate, elapsed_millis),
                tx_rate: bytes_per_second(rate.tx_rate, elapsed_millis),
            },
        )
    }
}

/// The share of memory in use, in thousandths of a percent, rounded down;
/// zero when the total is unknown.
pub open spec fn memory_share(used: u64, total: u64) -> int {
    if total == 0 {
        0
    } else {
        (lesser_count(used, total) * 100_000) / (total as int)
    }
}

/// Both directions of a rate together, in thousandths of a kibibyte, rounded
/// down.
pub open spec fn combined_kib(rate: RateSample) -> int {
    ((rate.rx_rate + rate.tx_rate) * 1000) / 1024
}

/// `value` as an `i64`, the largest standing for all that exceed it.
pub open spec fn as_reading(value: int) -> i64 {
    if value > i64::MAX {
        i64::MAX
    } else {
        value as i64
    }
}

impl MonitorData {
    /// Whether the snapshot is consistent: utilisations within zero and one
    /// hundred percent, and no more memory in use than there is.
    pub open spec fn wf(&self) -> bool {
        &&& 0 <= self.cpu_usage <= FULL_SCALE
        &&& self.ram_used <= self.ram_total
        &&& self.gpu_usage matches Some(value) ==> 0 <= value <= FULL_SCALE
    }

    /// Puts a snapshot together from what was measured: the aggregate
    /// processor utilisation, the memory in use and in total, the counters
    /// of every network interface, and the GPU utilisation if one was read.
    /// Utilisations are brought into range, the memory in use is held to the
    /// total, and the counters are summed over the interfaces.
    pub fn assemble(
        cpu_usage: i64,
        ram_used: u64,
        ram_total: u64,
        interfaces: &Vec<InterfaceCounters>,
        gpu_usage: Option<i64>,
    ) -> (data: MonitorData)
        ensures
            data.wf(),
            data.cpu_usage == clamp_percent(cpu_usage as int),
            data.ram_total == ram_total,
            data.ram_used == lesser_count(ram_used, ram_total),
            data.rx_bytes == as_counter(total_received(interfaces@)),
            data.tx_bytes == as_counter(total_transmitted(interfaces@)),
            data.gpu_usage == match gpu_usage {
                Some(value) => Some(clamp_percent(value as int)),
                None => None,
            },
    {
        let mut rx_bytes: u64 = 0;
        let mut tx_bytes: u64 = 0;
        let mut i: usize = 0;
        while i < interfaces.len()
            invariant
                0 <= i <= interfaces@.len(),
                rx_bytes == as_counter(total_received(interfaces@.subrange(0, i as int))),
                tx_bytes == as_counter(total_transmitted(interfaces@.subrange(0, i as int))),
            decreases interfaces@.len() - i,
        {
            assert(interfaces@.subrange(0, i + 1).drop_last() == interfaces@.subrange(0, i as int));
            rx_bytes = rx_bytes.saturating_add(interfaces[i].received);
            tx_bytes = tx_bytes.saturating_add(interfaces[i].transmitted);
            i = i + 1;
        }
        assert(interfaces@.subrange(0, i as int) == interfaces@);
        MonitorData {
            cpu_usage: clamp_reading(cpu_usage),
            ram_used: if ram_used <= ram_total {
                ram_used
            } else {
                ram_total
            },
            ram_total,
            rx_bytes,
            tx_bytes,
            gpu_usage: match gpu_usage {
                Some(value) => Some(clamp_reading(value)),
                None => None,
            },
        }
    }

    /// The share of memory in use, in thousandths of a percent.
    pub fn ram_percent(&self) -> (share: i64)
        ensures
            share == memory_share(self.ram_used, self.ram_total),
            0 <= share <= FULL_SCALE,
    {
        if self.ram_total == 0 {
            0
        } else {
            let used: u128 = if self.ram_used <= self.ram_total {
                self.ram_used as u128
            } else {
                self.ram_total as u128
            };
            let total: u128 = self.ram_total as u128;
            assert(0 <= (used * 100_000) / (total as int) <= 100_000) by (nonlinear_arith)
                requires
                    0 <= used <= total,
                    total > 0,
            ;
            (used * 100_000 / total) as i64
        }
    }
}

/// Computes `bytes_per_second`.
fn scale_to_second(bytes: u64, elapsed_millis: u64) -> (scaled: u64)
    requires
        elapsed_millis > 0,
    ensures
        scaled == bytes_per_second(bytes, elapsed_millis),
{
    let wide: u128 = bytes as u128 * 1000 / (elapsed_millis as u128);
    if wide > u64::MAX as u128 {
        u64::MAX
    } else {
        wide as u64
    }
}

impl RateSample {
    /// The same rate per second, where `self` holds the bytes moved between
    /// two snapshots and `elapsed_millis` is the time that passed between
    /// them by the clock, which need not be the interval that was asked
    /// for. There is no rate over no time at all.
    pub fn per_second(&self, elapsed_millis: u64) -> (rate: Option<RateSample>)
        ensures
            rate == rate_per_second(*self, elapsed_millis),
            rate is None <==> elapsed_millis == 0,
    {
        if elapsed_millis == 0 {
            None
        } else {
            Some(
                RateSample {
                    rx_rate: scale_to_second(self.rx_rate, elapsed_millis),
                    tx_rate: scale_to_second(self.tx_rate, elapsed_millis),
                },
            )
        }
    }

    /// Both directions together, in thousandths of a kibibyte.
    pub fn total_kib(&self) -> (total: i64)
        ensures
            total == as_reading(combined_kib(*self)),
            total >= 0,
    {
        let sum: u128 = self.rx_rate as u128 + self.tx_rate as u128;
        let scaled: u128 = sum * 1000 / 1024;
        if scaled > i64::MAX as u128 {
            i64::MAX
        } else {
            scaled as i64
        }
    }
}

/// Brings a utilisation into the range from zero to one hundred percent.
pub fn clamp_reading(value: i64) -> (clamped: i64)
    ensures
        clamped == clamp_percent(value as int),
        0 <= clamped <= FULL_SCALE,
{
    if value < 0 {
        0
    } else if value > FULL_SCALE {
        FULL_SCALE
    } else {
        value
    }
}

/// Turns successive snapshots into rates.
#[derive(Clone, Copy, Debug)]
pub struct RateTracker;

impl RateTracker {
    /// The bytes received and transmitted between the snapshot before,
    /// `prev`, and the current one, `curr`. A counter that went back was
    /// reset, which gives zero for it; so does the first snapshot, which has
    /// none before it.
    pub fn rate(prev: Option<&MonitorData>, curr: &MonitorData) -> (sample: RateSample)
        ensures
            sample == rate_between(
                match prev {
                    Some(before) => Some(*before),
                    None => None,
                },
                *curr,
            ),
            prev is None ==> sample.rx_rate == 0 && sample.tx_rate == 0,
            prev matches Some(before) && curr.rx_bytes < before.rx_bytes ==> sample.rx_rate == 0,
            prev matches Some(before) && curr.tx_bytes < before.tx_bytes ==> sample.tx_rate == 0,
    {
        match prev {
            Some(before) => RateSample {
                rx_rate: curr.rx_bytes.saturating_sub(before.rx_bytes),
                tx_rate: curr.tx_bytes.saturating_sub(before.tx_bytes),
            },
            None => RateSample { rx_rate: 0, tx_rate: 0 },
        }
    }
}

} // verus!
