//! Resource usage of one container, worked out from successive readings.

use vstd::hash_map::StringHashMap;
use vstd::prelude::*;

use crate::clock::Moment;
use crate::size::{mebibyte_text, write_mebibytes};

verus! {

/// How long one container may take to answer with a reading.
pub const READING_TIMEOUT_MILLIS: u64 = 800;

/// The counters that the daemon gives for a container.
#[derive(Clone, Debug)]
pub struct StatsReading {
    /// CPU time that the container has used.
    pub cpu_total: u64,
    /// CPU time that the whole system has used.
    pub system_cpu: Option<u64>,
    /// Number of CPUs online.
    pub online_cpus: Option<u64>,
    /// CPU time that the container has used, by CPU.
    pub percpu_usage: Option<Vec<u64>>,
    /// Memory in use, in bytes.
    pub memory_usage: Option<u64>,
    /// Memory limit, in bytes.
    pub memory_limit: Option<u64>,
}

/// The answer to a request for one reading.
#[derive(Clone, Debug)]
pub enum StatsReply {
    /// No answer came in time.
    TimedOut,
    /// The daemon closed the stream without a reading.
    Ended,
    /// The request failed, with the reason.
    Failed(String),
    /// A reading.
    Received(StatsReading),
}

/// The part of a reading that the next one is compared with.
#[derive(Clone, Copy, Debug, PartialEq, Eq, Structural)]
pub struct PreviousStats {
    pub cpu_total: u64,
    pub system_cpu: u64,
    pub timestamp: Moment,
}

/// The CPU usage of a container between two readings.
#[derive(Clone, Copy, Debug, PartialEq, Eq, Structural)]
pub enum CpuUsage {
    /// Zero percent.
    Zero,
    /// `cpu_delta / system_delta * number_cpus * 100` percent.
    Share { cpu_delta: u64, system_delta: u64, number_cpus: u64 },
}

/// A share of the available memory: `usage / limit * 100` percent.
#[derive(Clone, Copy, Debug, PartialEq, Eq, Structural)]
pub struct MemoryShare {
    pub usage: u64,
    pub limit: u64,
}

/// The memory usage of a container; without a share it is zero percent.
#[derive(Clone, Debug)]
pub struct MemoryUsage {
    pub text: String,
    pub share: Option<MemoryShare>,
}

/// The resource usage of a container.
#[derive(Clone, Debug)]
pub struct ResourceUsage {
    pub cpu: CpuUsage,
    pub memory: MemoryUsage,
}

/// The number, or the default where there is none.
pub open spec fn number_or(number: Option<u64>, default: u64) -> u64 {
    match number {
        Some(n) => n,
        None => default,
    }
}

/// How many CPUs a reading speaks of.
pub open spec fn cpu_count(reading: StatsReading) -> u64 {
    match (reading.online_cpus, reading.percpu_usage) {
        (Some(n), _) => n,
        (None, Some(per_cpu)) => per_cpu@.len() as u64,
        (None, None) => 1,
    }
}

/// What is kept of a reading.
pub open spec fn kept(reading: StatsReading, now: Moment) -> PreviousStats {
    PreviousStats {
        cpu_total: reading.cpu_total,
        system_cpu: number_or(reading.system_cpu, 0),
        timestamp: now,
    }
}

/// The increase of a counter; zero where it went down.
pub open spec fn increase(from: u64, to: u64) -> u64 {
    if to > from {
        (to - from) as u64
    } else {
        0
    }
}

/// The CPU usage that a reading shows after an earlier one. It is zero unless
/// both the system counter and the clock have moved on.
pub open spec fn cpu_usage(
    previous: Option<PreviousStats>,
    reading: StatsReading,
    now: Moment,
) -> CpuUsage {
    match previous {
        Some(prev) => {
            let system_delta = increase(prev.system_cpu, number_or(reading.system_cpu, 0));
            if system_delta > 0 && now.since(prev.timestamp) > 0 {
                CpuUsage::Share {
                    cpu_delta: increase(prev.cpu_total, reading.cpu_total),
                    system_delta,
                    number_cpus: cpu_count(reading),
                }
            } else {
                CpuUsage::Zero
            }
        },
        None => CpuUsage::Zero,
    }
}

/// The memory share that a reading shows: none unless both the usage and the
/// limit are positive. A missing usage counts as zero, a missing limit as one.
pub open spec fn memory_share(reading: StatsReading) -> Option<MemoryShare> {
    let usage = number_or(reading.memory_usage, 0);
    let limit = number_or(reading.memory_limit, 1);
    if usage > 0 && limit > 0 {
        Some(MemoryShare { usage, limit })
    } else {
        None
    }
}

/// A memory share in mebibytes.
pub open spec fn memory_text(share: Option<MemoryShare>) -> Seq<char> {
    match share {
        Some(s) => mebibyte_text(s.usage as nat) + " / "@ + mebibyte_text(s.limit as nat),
        None => "N/A"@,
    }
}

/// The kept part of the last reading of each container, by container id.
pub struct PreviousStatsTable {
    entries: StringHashMap<PreviousStats>,
}

impl View for PreviousStatsTable {
    type V = Map<Seq<char>, PreviousStats>;

    closed spec fn view(&self) -> Map<Seq<char>, PreviousStats> {
        self.entries@
    }
}

/// The entry of a map, where it has one.
pub open spec fn lookup<V>(map: Map<Seq<char>, V>, key: Seq<char>) -> Option<V> {
    if map.contains_key(key) {
        Some(map[key])
    } else {
        None
    }
}

impl PreviousStatsTable {
    /// A table without readings.
    pub fn new() -> (r: PreviousStatsTable)
        ensures
            r@ == Map::<Seq<char>, PreviousStats>::empty(),
    {
        PreviousStatsTable { entries: StringHashMap::new() }
    }

    /// The kept part of the last reading of a container.
    pub fn get(&self, container_id: &str) -> (r: Option<PreviousStats>)
        ensures
            r == lookup(self@, container_id@),
    {
        match self.entries.get(container_id) {
            Some(prev) => Some(*prev),
            None => None,
        }
    }

    /// Compares a reading of a container with the one before it, and keeps it
    /// for the next comparison.
    pub fn record(&mut self, container_id: &str, reading: &StatsReading, now: Moment) -> (r:
        CpuUsage)
        ensures
            r == cpu_usage(lookup(old(self)@, container_id@), *reading, now),
            final(self)@ == old(self)@.insert(container_id@, kept(*reading, now)),
    {
        let system_cpu = match reading.system_cpu {
            Some(n) => n,
            None => 0,
        };
        let number_cpus = match reading.online_cpus {
            Some(n) => n,
            None => match &reading.percpu_usage {
                Some(per_cpu) => per_cpu.len() as u64,
                None => 1,
            },
        };
        let usage = match self.get(container_id) {
            Some(prev) => {
                let cpu_delta = reading.cpu_total.saturating_sub(prev.cpu_total);
                let system_delta = system_cpu.saturating_sub(prev.system_cpu);
                if system_delta > 0 && now.elapsed_since(prev.timestamp) > 0 {
                    CpuUsage::Share { cpu_delta, system_delta, number_cpus }
                } else {
                    CpuUsage::Zero
                }
            },
            None => CpuUsage::Zero,
        };
        self.entries.insert(
            container_id.to_owned(),
            PreviousStats { cpu_total: reading.cpu_total, system_cpu, timestamp: now },
        );
        usage
    }
}

/// The memory usage that a reading shows.
pub fn memory_usage(reading: &StatsReading) -> (r: MemoryUsage)
    ensures
        r.share == memory_share(*reading),
        r.text@ == memory_text(memory_share(*reading)),
{
    let usage = match reading.memory_usage {
        Some(n) => n,
        None => 0,
    };
    let limit = match reading.memory_limit {
        Some(n) => n,
        None => 1,
    };
    if usage > 0 && limit > 0 {
        let mut text = write_mebibytes(usage);
        text.append(" / ");
        let limit_text = write_mebibytes(limit);
        text.append(limit_text.as_str());
        MemoryUsage { text, share: Some(MemoryShare { usage, limit }) }
    } else {
        MemoryUsage { text: "N/A".to_owned(), share: None }
    }
}

/// Takes the answer of a container to a request for a reading: works out its
/// resource usage and keeps the reading. Without a reading the table stays as
/// it is, and the error says why there is none.
pub fn resource_usage(
    table: &mut PreviousStatsTable,
    container_id: &str,
    reply: StatsReply,
    now: Moment,
) -> (r: Result<ResourceUsage, String>)
    ensures
        reply is Received <==> r is Ok,
        match reply {
            StatsReply::TimedOut => r->Err_0@ == "Individual stats timeout"@ && final(table)@
                == old(table)@,
            StatsReply::Ended => r->Err_0@ == "No stats received"@ && final(table)@ == old(table)@,
            StatsReply::Failed(reason) => r->Err_0@ == reason@ && final(table)@ == old(table)@,
            StatsReply::Received(reading) => {
                &&& r->Ok_0.cpu == cpu_usage(lookup(old(table)@, container_id@), reading, now)
                &&& r->Ok_0.memory.share == memory_share(reading)
                &&& r->Ok_0.memory.text@ == memory_text(memory_share(reading))
                &&& final(table)@ == old(table)@.insert(container_id@, kept(reading, now))
            },
        },
{
    match reply {
        StatsReply::TimedOut => Err("Individual stats timeout".to_owned()),
        StatsReply::Ended => Err("No stats received".to_owned()),
        StatsReply::Failed(reason) => Err(reason),
        StatsReply::Received(reading) => {
            let cpu = table.record(container_id, &reading, now);
            let memory = memory_usage(&reading);
            Ok(ResourceUsage { cpu, memory })
        },
    }
}

/// The first reading of a container shows no CPU usage.
pub proof fn first_reading_shows_zero(
    table: Map<Seq<char>, PreviousStats>,
    id: Seq<char>,
    reading: StatsReading,
    now: Moment,
)
    requires
        !table.contains_key(id),
    ensures
        cpu_usage(lookup(table, id), reading, now) == CpuUsage::Zero,
{
}

/// A reading that was kept is the one that the next reading of the same
/// container is compared with, whatever was read of other containers between
/// the two.
pub proof fn next_reading_is_compared_with_the_last(
    table: Map<Seq<char>, PreviousStats>,
    id: Seq<char>,
    other: Seq<char>,
    first: StatsReading,
    between: StatsReading,
    second: StatsReading,
    first_at: Moment,
    between_at: Moment,
    second_at: Moment,
)
    requires
        other != id,
    ensures
        ({
            let after = table.insert(id, kept(first, first_at)).insert(
                other,
                kept(between, between_at),
            );
            cpu_usage(lookup(after, id), second, second_at) == cpu_usage(
                Some(kept(first, first_at)),
                second,
                second_at,
            )
        }),
{
}

/// Two readings show usage exactly when the system counter has grown and time
/// has passed between them; the share then has a positive denominator and at
/// most the counters' growth.
pub proof fn usage_needs_growth_and_time(
    first: StatsReading,
    second: StatsReading,
    first_at: Moment,
    second_at: Moment,
)
    ensures
        cpu_usage(Some(kept(first, first_at)), second, second_at) is Share <==> (number_or(
            second.system_cpu,
            0,
        ) > number_or(first.system_cpu, 0) && second_at.nanos > first_at.nanos),
        cpu_usage(Some(kept(first, first_at)), second, second_at) matches CpuUsage::Share {
            cpu_delta,
            system_delta,
            number_cpus,
        } ==> {
            &&& system_delta > 0
            &&& number_or(first.system_cpu, 0) + system_delta == number_or(second.system_cpu, 0)
            &&& first.cpu_total <= second.cpu_total ==> first.cpu_total + cpu_delta
                == second.cpu_total
            &&& first.cpu_total > second.cpu_total ==> cpu_delta == 0
            &&& number_cpus == cpu_count(second)
        },
{
}

/// A reading with a positive usage and a positive limit shows exactly these two
/// numbers, whatever their size, both in the share and in the text.
pub proof fn memory_shows_both_numbers_of_the_reading(reading: StatsReading, used: u64, limit: u64)
    requires
        reading.memory_usage == Some(used),
        reading.memory_limit == Some(limit),
        used > 0,
        limit > 0,
    ensures
        memory_share(reading) matches Some(share) && share.usage == used && share.limit == limit,
        memory_text(memory_share(reading)) == mebibyte_text(used as nat) + " / "@ + mebibyte_text(
            limit as nat,
        ),
{
}

/// Without a positive usage, or with a limit of zero, a reading shows no memory
/// usage; where it has no limit at all, the usage is shown against one byte.
pub proof fn memory_without_both_numbers(reading: StatsReading, used: u64)
    ensures
        reading.memory_usage is None ==> memory_share(reading) is None,
        reading.memory_usage == Some(0u64) ==> memory_share(reading) is None,
        reading.memory_limit == Some(0u64) ==> memory_share(reading) is None,
        memory_share(reading) is None <==> memory_text(memory_share(reading)) == "N/A"@,
        reading.memory_usage == Some(used) && used > 0 && reading.memory_limit is None
            ==> memory_share(reading) == Some(MemoryShare { usage: used, limit: 1 }),
{
    reveal_strlit("N/A");
    reveal_strlit(" / ");
    let usage = number_or(reading.memory_usage, 0) as nat;
    let limit = number_or(reading.memory_limit, 1) as nat;
    let shown = mebibyte_text(usage) + " / "@ + mebibyte_text(limit);
    assert(shown[mebibyte_text(usage).len() as int] == ' ');
    assert("N/A"@.len() == 3);
    assert(!("N/A"@.contains(' ')));
    assert(shown.contains(' '));
}

/// What is kept of a reading are its own two counters, the system's as zero where
/// it was not given, and the time at which it came.
pub proof fn a_reading_is_kept_as_it_is(reading: StatsReading, now: Moment)
    ensures
        kept(reading, now).cpu_total == reading.cpu_total,
        reading.system_cpu matches Some(system) ==> kept(reading, now).system_cpu == system,
        reading.system_cpu is None ==> kept(reading, now).system_cpu == 0,
        kept(reading, now).timestamp.nanos == now.nanos,
{
}

/// Between two readings the share is that of the container's counter in the
/// system's counter, each by its exact growth, for the CPUs which the second
/// reading speaks of. It needs a growing system counter and a later time; a
/// container's counter that went down counts as no growth.
pub proof fn shares_are_exact_differences(
    earlier: StatsReading,
    later: StatsReading,
    earlier_at: Moment,
    later_at: Moment,
    before: u64,
    after: u64,
)
    requires
        earlier.system_cpu == Some(before),
        later.system_cpu == Some(after),
    ensures
        ({
            let usage = cpu_usage(Some(kept(earlier, earlier_at)), later, later_at);
            if before < after && earlier_at.nanos < later_at.nanos {
                &&& usage is Share
                &&& usage->system_delta == after - before
                &&& earlier.cpu_total <= later.cpu_total ==> usage->cpu_delta == later.cpu_total
                    - earlier.cpu_total
                &&& earlier.cpu_total > later.cpu_total ==> usage->cpu_delta == 0
                &&& later.online_cpus matches Some(n) ==> usage->number_cpus == n
                &&& later.online_cpus is None && later.percpu_usage is None ==> usage->number_cpus
                    == 1
                &&& later.online_cpus is None ==> (later.percpu_usage matches Some(per_cpu) ==> (
                per_cpu@.len() <= u64::MAX ==> usage->number_cpus == per_cpu@.len()))
            } else {
                usage is Zero
            }
        }),
{
}

/// Without an earlier reading, or without the system's counter in the later one,
/// the usage is zero; the system's counter counts from zero where only the
/// earlier reading lacked it.
pub proof fn usage_needs_two_system_counters(
    earlier: StatsReading,
    later: StatsReading,
    earlier_at: Moment,
    later_at: Moment,
)
    ensures
        cpu_usage(None, later, later_at) is Zero,
        later.system_cpu is None ==> cpu_usage(
            Some(kept(earlier, earlier_at)),
            later,
            later_at,
        ) is Zero,
        earlier.system_cpu is None && earlier_at.nanos < later_at.nanos ==> (
        later.system_cpu matches Some(after) ==> (after > 0 ==> {
            let usage = cpu_usage(Some(kept(earlier, earlier_at)), later, later_at);
            usage is Share && usage->system_delta == after
        })),
{
}

/// A map gives back for a key what was put there last, and nothing for a key that
/// it lacks. A container has eight tenths of a second for its answer.
pub proof fn lookups_find_what_was_put<V>(
    map: Map<Seq<char>, V>,
    key: Seq<char>,
    other: Seq<char>,
    value: V,
)
    ensures
        lookup(map.insert(key, value), key) == Some(value),
        other != key ==> lookup(map.insert(key, value), other) == lookup(map, other),
        lookup(map, key) is None <==> !map.contains_key(key),
        lookup(map, key) matches Some(found) ==> found == map[key],
        READING_TIMEOUT_MILLIS == 800,
{
}

} // verus!
