use vstd::prelude::*;

verus! {

/// Minimum wall-clock gap, in microseconds, between two throughput reports.
pub const REPORT_MIN_MICROS: u128 = 1_000_000;

/// Saturating addition on the accounting counters: ingestion never stops
/// for bookkeeping, so a counter that would overflow pins at the maximum.
pub open spec fn sat_add(a: u64, b: u64) -> u64 {
    if a + b <= u64::MAX {
        (a + b) as u64
    } else {
        u64::MAX
    }
}

/// Counters kept by the writer commit manager: totals for the whole run and
/// totals for the current reporting interval.
///
/// Only the commit manager mutates these; the throughput reporter reads
/// snapshots of them. Totals are monotonic; the interval counters reset to
/// zero exactly at interval boundaries.
pub struct IngestionCounters {
    pub docs_total: u64,
    pub bytes_total: u64,
    pub docs_interval: u64,
    pub bytes_interval: u64,
}

impl IngestionCounters {
    pub fn new() -> (c: Self)
        ensures
            c.docs_total == 0,
            c.bytes_total == 0,
            c.docs_interval == 0,
            c.bytes_interval == 0,
    {
        IngestionCounters { docs_total: 0, bytes_total: 0, docs_interval: 0, bytes_interval: 0 }
    }

    /// Account one successfully submitted document of `size` bytes.
    pub fn record(&mut self, size: u64)
        ensures
            final(self).docs_total == sat_add(old(self).docs_total, 1),
            final(self).bytes_total == sat_add(old(self).bytes_total, size),
            final(self).docs_interval == sat_add(old(self).docs_interval, 1),
            final(self).bytes_interval == sat_add(old(self).bytes_interval, size),
    {
        self.docs_total = sat_add_exec(self.docs_total, 1);
        self.bytes_total = sat_add_exec(self.bytes_total, size);
        self.docs_interval = sat_add_exec(self.docs_interval, 1);
        self.bytes_interval = sat_add_exec(self.bytes_interval, size);
    }

    /// Close the current reporting interval: the interval counters restart
    /// from zero, the run totals are untouched.
    pub fn reset_interval(&mut self)
        ensures
            final(self).docs_total == old(self).docs_total,
            final(self).bytes_total == old(self).bytes_total,
            final(self).docs_interval == 0,
            final(self).bytes_interval == 0,
    {
        self.docs_interval = 0;
        self.bytes_interval = 0;
    }

}

fn sat_add_exec(a: u64, b: u64) -> (r: u64)
    ensures
        r == sat_add(a, b),
{
    if b <= u64::MAX - a {
        a + b
    } else {
        u64::MAX
    }
}

/// Whether enough wall-clock time has passed since the last report to emit
/// a new throughput observation. The ingest loop consults this after every
/// successful submission, so an observation comes at least once per
/// reporting interval while documents flow, and at most one per interval.
pub fn report_due(elapsed_micros: u128) -> (b: bool)
    ensures
        b == (elapsed_micros > REPORT_MIN_MICROS),
{
    elapsed_micros > REPORT_MIN_MICROS
}

/// Ingestion rate in documents per hour, over the interval's document count
/// and its elapsed wall-clock time. Integer arithmetic throughout; a rate
/// beyond `u64::MAX` pins at the maximum and a zero interval yields zero.
pub fn docs_per_hour(docs: u64, elapsed_micros: u128) -> (r: u64)
    ensures
        elapsed_micros == 0 ==> r == 0,
        elapsed_micros > 0 ==> r == ({
            let exact = (docs as int) * 3_600_000_000 / (elapsed_micros as int);
            if exact <= u64::MAX {
                exact as u64
            } else {
                u64::MAX
            }
        }),
{
    if elapsed_micros == 0 {
        0
    } else {
        let v: u128 = (docs as u128) * 3_600_000_000u128 / elapsed_micros;
        if v <= u64::MAX as u128 {
            v as u64
        } else {
            u64::MAX
        }
    }
}

/// Ingestion rate in bytes per second over the interval. Integer
/// arithmetic; pins at `u64::MAX`, and a zero interval yields zero.
pub fn bytes_per_second(bytes: u64, elapsed_micros: u128) -> (r: u64)
    ensures
        elapsed_micros == 0 ==> r == 0,
        elapsed_micros > 0 ==> r == ({
            let exact = (bytes as int) * 1_000_000 / (elapsed_micros as int);
            if exact <= u64::MAX {
                exact as u64
            } else {
                u64::MAX
            }
        }),
{
    if elapsed_micros == 0 {
        0
    } else {
        let v: u128 = (bytes as u128) * 1_000_000u128 / elapsed_micros;
        if v <= u64::MAX as u128 {
            v as u64
        } else {
            u64::MAX
        }
    }
}

} // verus!
