use docker_monitor::clock::Moment;
use docker_monitor::stats::{
    memory_usage, resource_usage, CpuUsage, MemoryShare, PreviousStatsTable, StatsReading,
    StatsReply,
};

fn reading(cpu_total: u64, system_cpu: Option<u64>) -> StatsReading {
    StatsReading {
        cpu_total,
        system_cpu,
        online_cpus: Some(4),
        percpu_usage: None,
        memory_usage: Some(104_857_600),
        memory_limit: Some(1_073_741_824),
    }
}

fn at(nanos: u128) -> Moment {
    Moment { nanos }
}

#[test]
fn first_reading_has_no_cpu_usage() {
    let mut table = PreviousStatsTable::new();
    assert!(table.get("a").is_none());
    assert_eq!(table.record("a", &reading(100, Some(1000)), at(1)), CpuUsage::Zero);
    let kept = table.get("a").unwrap();
    assert_eq!(kept.cpu_total, 100);
    assert_eq!(kept.system_cpu, 1000);
    assert_eq!(kept.timestamp, at(1));
}

#[test]
fn usage_is_the_growth_between_readings() {
    let mut table = PreviousStatsTable::new();
    table.record("a", &reading(100, Some(1000)), at(1));
    table.record("b", &reading(7, Some(9)), at(2));
    assert_eq!(
        table.record("a", &reading(150, Some(1400)), at(3)),
        CpuUsage::Share {
            cpu_delta: 50,
            system_delta: 400,
            number_cpus: 4
        }
    );
    assert_eq!(
        table.record("a", &reading(140, Some(1500)), at(4)),
        CpuUsage::Share {
            cpu_delta: 0,
            system_delta: 100,
            number_cpus: 4
        }
    );
}

#[test]
fn usage_needs_time_and_system_growth() {
    let mut table = PreviousStatsTable::new();
    table.record("a", &reading(100, Some(1000)), at(5));
    assert_eq!(table.record("a", &reading(200, Some(2000)), at(5)), CpuUsage::Zero);
    assert_eq!(table.record("a", &reading(300, Some(2000)), at(6)), CpuUsage::Zero);
    assert_eq!(table.record("a", &reading(400, None), at(7)), CpuUsage::Zero);
    assert_eq!(
        table.record("a", &reading(500, Some(10)), at(8)),
        CpuUsage::Share {
            cpu_delta: 100,
            system_delta: 10,
            number_cpus: 4
        }
    );
}

#[test]
fn number_of_cpus_has_fallbacks() {
    let cpus = |online_cpus: Option<u64>, percpu_usage: Option<Vec<u64>>| {
        let mut table = PreviousStatsTable::new();
        table.record("a", &reading(0, Some(0)), at(1));
        let mut second = reading(1, Some(1));
        second.online_cpus = online_cpus;
        second.percpu_usage = percpu_usage;
        match table.record("a", &second, at(2)) {
            CpuUsage::Share { number_cpus, .. } => number_cpus,
            CpuUsage::Zero => panic!("no usage"),
        }
    };
    assert_eq!(cpus(Some(8), Some(vec![1, 2])), 8);
    assert_eq!(cpus(None, Some(vec![1, 2])), 2);
    assert_eq!(cpus(None, Some(vec![])), 0);
    assert_eq!(cpus(None, None), 1);
}

#[test]
fn memory_of_a_container() {
    let usage = memory_usage(&reading(0, None));
    assert_eq!(usage.text, "100.0 / 1024.0");
    assert_eq!(
        usage.share,
        Some(MemoryShare {
            usage: 104_857_600,
            limit: 1_073_741_824
        })
    );
    let memory = |memory: Option<u64>, limit: Option<u64>| {
        let mut r = reading(0, None);
        r.memory_usage = memory;
        r.memory_limit = limit;
        let usage = memory_usage(&r);
        (usage.text, usage.share)
    };
    assert_eq!(memory(None, Some(5)), ("N/A".to_string(), None));
    assert_eq!(memory(Some(0), Some(5)), ("N/A".to_string(), None));
    assert_eq!(memory(Some(5), Some(0)), ("N/A".to_string(), None));
    assert_eq!(
        memory(Some(1_048_576), None),
        (
            "1.0 / 0.0".to_string(),
            Some(MemoryShare {
                usage: 1_048_576,
                limit: 1
            })
        )
    );
}

#[test]
fn missing_readings_are_errors() {
    let mut table = PreviousStatsTable::new();
    let mut error = |reply: StatsReply| resource_usage(&mut table, "a", reply, at(1)).unwrap_err();
    assert_eq!(error(StatsReply::TimedOut), "Individual stats timeout");
    assert_eq!(error(StatsReply::Ended), "No stats received");
    assert_eq!(error(StatsReply::Failed("gone".to_string())), "gone");
    assert!(table.get("a").is_none());
}

#[test]
fn readings_become_resource_usage() {
    let mut table = PreviousStatsTable::new();
    let first = StatsReply::Received(reading(0, Some(100)));
    let usage = resource_usage(&mut table, "a", first, at(1)).unwrap();
    assert_eq!(usage.cpu, CpuUsage::Zero);
    assert_eq!(usage.memory.text, "100.0 / 1024.0");
    let second = StatsReply::Received(reading(25, Some(200)));
    let usage = resource_usage(&mut table, "a", second, at(2)).unwrap();
    assert_eq!(
        usage.cpu,
        CpuUsage::Share {
            cpu_delta: 25,
            system_delta: 100,
            number_cpus: 4
        }
    );
}
