use webgpu_actor::bench::{assemble_stats, benchmark_function, BenchmarkStats, CounterValues};

#[test]
fn assemble_stats_carries_every_value_over_unchanged() {
    let values = CounterValues {
        cycles: Some(123),
        instructions: None,
        branch_misses: Some(4),
        cache_misses: None,
        cache_references: Some(0),
    };
    let stats = assemble_stats(values, 987_654);
    assert_eq!(
        stats,
        BenchmarkStats {
            cycles: Some(123),
            instructions: None,
            branch_misses: Some(4),
            cache_misses: None,
            cache_references: Some(0),
            wall_time_nanos: 987_654,
        },
    );
}

#[test]
fn benchmark_function_measures_or_reports_kernel_refusal() {
    // Whether hardware counters may be opened depends on the machine; either
    // way the call must come back with a well-formed answer.
    let result = benchmark_function(&|| {
        || {
            let mut total: u64 = 0;
            let mut i: u64 = 0;
            while i < 10_000 {
                total = total.wrapping_add(i * i);
                i += 1;
            }
            total
        }
    });
    match result {
        Ok(stats) => {
            // The second run is timed around real work.
            assert!(stats.wall_time_nanos > 0);
            // One reading supplies every counter, or none was recorded: the
            // five counters of a successful result stand or fall together.
            let present = [
                stats.cycles.is_some(),
                stats.instructions.is_some(),
                stats.branch_misses.is_some(),
                stats.cache_misses.is_some(),
                stats.cache_references.is_some(),
            ];
            assert!(present.iter().all(|p| *p == present[0]));
        }
        Err(message) => {
            assert!(message.contains("perf_event"));
        }
    }
}
