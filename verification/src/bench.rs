//! Wall-clock and hardware-counter sampling of a single function.
//!
//! A benchmarked function is built twice by its constructor: the first run is
//! measured with a group of hardware performance counters, the second with
//! the monotonic clock. Counters are optional, because some machines cannot
//! record them. The counter crate sizes the kernel's reply to a group
//! reading by every counter ever *added* to the group — a failed addition
//! and a dropped counter included — and panics on a mismatch, so the group
//! and its counters live together in [`CounterGroup`], whose intactness flag
//! the reading requires: a group holding a failed addition is never read,
//! and a machine that could not record every event reports no counters at
//! all. What the kernel and the hardware report is outside this library's
//! control; the sampled values themselves are promised nothing, but a
//! reading's contents are named, so how a result is put together from
//! whatever came back is pinned exactly.

use vstd::prelude::*;

verus! {

/// Declares the perf counter group type of the `perf-event` crate.
#[verifier::external_type_specification]
#[verifier::external_body]
pub struct ExGroup(perf_event::Group);

/// Declares the single counter type of the `perf-event` crate.
#[verifier::external_type_specification]
#[verifier::external_body]
pub struct ExCounter(perf_event::Counter);

/// Declares the group reading type of the `perf-event` crate.
#[verifier::external_type_specification]
#[verifier::external_body]
pub struct ExCounts(perf_event::Counts);

/// Declares the monotonic clock instant type.
#[verifier::external_type_specification]
#[verifier::external_body]
pub struct ExInstant(std::time::Instant);

/// What a group reading holds: the sampled value of each member counter,
/// keyed by the kernel-assigned counter id.
pub uninterp spec fn counts_of(counts: perf_event::Counts) -> Map<u64, u64>;

/// The kernel-assigned id a counter carries, fixed when it is built: the key
/// its value sits under in a group reading.
pub uninterp spec fn counter_id(counter: perf_event::Counter) -> u64;

/// The hardware events sampled: one per field of [`BenchmarkStats`].
#[derive(Clone, Copy, Debug, PartialEq, Eq, Structural)]
pub enum HardwareKind {
    Cycles,
    Instructions,
    BranchMisses,
    CacheMisses,
    CacheReferences,
}

/// A collection of CPU performance counters. The counters are optional,
/// because some CPUs are not able to record them.
struct Counters {
    cycles: Option<perf_event::Counter>,
    instructions: Option<perf_event::Counter>,
    branch_misses: Option<perf_event::Counter>,
    cache_misses: Option<perf_event::Counter>,
    cache_references: Option<perf_event::Counter>,
}

/// A perf counter group together with every counter built inside it. The
/// counters never leave this struct, so a counter of the group is dropped
/// only with the whole group, and [`CounterGroup::ok`] tracks the one other
/// way the group and the kernel can disagree: an addition that failed.
pub struct CounterGroup {
    group: perf_event::Group,
    counters: Counters,
    /// Whether every counter ever added to `group` was built successfully —
    /// and is therefore held in `counters`. Cleared by the one function that
    /// adds counters, [`CounterGroup::add_counter`], when a build fails.
    intact: Ghost<bool>,
}

impl CounterGroup {
    /// Whether every counter ever added to the underlying group was built
    /// and is held here: exactly then does the kernel's reply to a reading
    /// have the size the counter crate insists on.
    pub closed spec fn ok(&self) -> bool {
        self.intact@
    }

    /// Whether the counter for the given hardware event was built.
    pub closed spec fn built_kind(&self, kind: HardwareKind) -> bool {
        match kind {
            HardwareKind::Cycles => self.counters.cycles is Some,
            HardwareKind::Instructions => self.counters.instructions is Some,
            HardwareKind::BranchMisses => self.counters.branch_misses is Some,
            HardwareKind::CacheMisses => self.counters.cache_misses is Some,
            HardwareKind::CacheReferences => self.counters.cache_references is Some,
        }
    }

    /// The kernel-assigned id of the counter built for the given hardware
    /// event; meaningful only where [`CounterGroup::built_kind`] holds.
    pub closed spec fn id_of(&self, kind: HardwareKind) -> u64 {
        match kind {
            HardwareKind::Cycles => counter_id(self.counters.cycles.unwrap()),
            HardwareKind::Instructions => counter_id(self.counters.instructions.unwrap()),
            HardwareKind::BranchMisses => counter_id(self.counters.branch_misses.unwrap()),
            HardwareKind::CacheMisses => counter_id(self.counters.cache_misses.unwrap()),
            HardwareKind::CacheReferences => counter_id(self.counters.cache_references.unwrap()),
        }
    }

    /// Builds one hardware counter inside the group and keeps it; a build
    /// the machine refuses leaves the event absent and clears intactness,
    /// because the failed addition already widened the kernel's expected
    /// reply.
    fn add_counter(&mut self, kind: HardwareKind) -> (built: bool)
        requires
            !old(self).built_kind(kind),
        ensures
            final(self).ok() == (old(self).ok() && built),
            forall|k: HardwareKind|
                (#[trigger] final(self).built_kind(k)) == (if k == kind {
                    built
                } else {
                    old(self).built_kind(k)
                }),
            forall|k: HardwareKind|
                k != kind && old(self).built_kind(k) ==> #[trigger] final(self).id_of(k) == old(
                    self,
                ).id_of(k),
    {
        let counter = build_counter(&mut self.group, kind);
        let built = counter.is_some();
        proof {
            self.intact@ = self.intact@ && built;
        }
        match kind {
            HardwareKind::Cycles => {
                self.counters.cycles = counter;
            },
            HardwareKind::Instructions => {
                self.counters.instructions = counter;
            },
            HardwareKind::BranchMisses => {
                self.counters.branch_misses = counter;
            },
            HardwareKind::CacheMisses => {
                self.counters.cache_misses = counter;
            },
            HardwareKind::CacheReferences => {
                self.counters.cache_references = counter;
            },
        }
        built
    }
}

/// Relies on perf_event::Group::new: opens a new, empty counter group — no
/// additions yet, so the group is intact — or reports the kernel's refusal.
#[verifier::external_body]
fn create_group() -> (r: Result<CounterGroup, String>)
    ensures
        r matches Ok(cg) ==> cg.ok() && forall|k: HardwareKind| !(#[trigger] cg.built_kind(k)),
{
    let counters = Counters {
        cycles: None,
        instructions: None,
        branch_misses: None,
        cache_misses: None,
        cache_references: None,
    };
    match perf_event::Group::new() {
        Ok(group) => Ok(CounterGroup { group, counters, intact: Ghost(true) }),
        Err(error) => Err(format!(
            "Cannot create perf_event group ({:?}). Check /proc/sys/kernel/perf_event_paranoid.",
            error,
        )),
    }
}

/// Relies on perf_event::Builder: builds one hardware counter inside the
/// group, or nothing where the machine cannot record that event.
#[verifier::external_body]
fn build_counter(group: &mut perf_event::Group, kind: HardwareKind) -> (r: Option<
    perf_event::Counter,
>)
{
    let event = match kind {
        HardwareKind::Cycles => perf_event::events::Hardware::CPU_CYCLES,
        HardwareKind::Instructions => perf_event::events::Hardware::INSTRUCTIONS,
        HardwareKind::BranchMisses => perf_event::events::Hardware::BRANCH_MISSES,
        HardwareKind::CacheMisses => perf_event::events::Hardware::CACHE_MISSES,
        HardwareKind::CacheReferences => perf_event::events::Hardware::CACHE_REFERENCES,
    };
    perf_event::Builder::new().group(group).kind(event).build().ok()
}

/// Relies on perf_event::Group::enable: starts every counter of the group.
#[verifier::external_body]
fn group_enable(group: &mut perf_event::Group) -> (r: Result<(), String>)
{
    group.enable().map_err(|error| format!("Cannot enable perf_event group ({:?}).", error))
}

/// Relies on perf_event::Group::disable: stops every counter of the group.
#[verifier::external_body]
fn group_disable(group: &mut perf_event::Group) -> (r: Result<(), String>)
{
    group.disable().map_err(|error| format!("Cannot disable perf_event group ({:?}).", error))
}

/// Relies on perf_event::Group::read: reads all the group's counters at
/// once. The crate sizes the kernel's reply by every counter ever added to
/// the group and panics on a mismatch, so an intact group is required; the
/// reply then lists every member, each built counter's id among the keys.
#[verifier::external_body]
fn group_read(cg: &mut CounterGroup) -> (r: Result<perf_event::Counts, String>)
    requires
        old(cg).ok(),
    ensures
        final(cg).ok(),
        forall|k: HardwareKind| (#[trigger] final(cg).built_kind(k)) == old(cg).built_kind(k),
        forall|k: HardwareKind|
            old(cg).built_kind(k) ==> #[trigger] final(cg).id_of(k) == old(cg).id_of(k),
        r matches Ok(counts) ==> forall|k: HardwareKind|
            (#[trigger] old(cg).built_kind(k)) ==> counts_of(counts).contains_key(old(cg).id_of(k)),
{
    cg.group.read().map_err(|error| format!("Cannot read perf_event group ({:?}).", error))
}

/// Relies on perf_event::Counts::get: the sampled value under the counter's
/// id, or nothing where the counter is not a member of the reading.
#[verifier::external_body]
fn counts_get(counts: &perf_event::Counts, counter: &perf_event::Counter) -> (r: Option<u64>)
    ensures
        counts_of(*counts).contains_key(counter_id(*counter)) ==> r == Some(
            counts_of(*counts)[counter_id(*counter)],
        ),
        !counts_of(*counts).contains_key(counter_id(*counter)) ==> r is None,
{
    counts.get(counter).copied()
}

/// Relies on std::time::Instant::now: a monotonic clock reading.
#[verifier::external_body]
fn instant_now() -> (r: std::time::Instant)
{
    std::time::Instant::now()
}

/// Relies on std::time::Instant::elapsed: the nanoseconds since the reading
/// was taken.
#[verifier::external_body]
fn elapsed_nanos(start: &std::time::Instant) -> (r: u64)
{
    start.elapsed().as_nanos() as u64
}

/// Relies on std::hint::black_box: keeps the value observably used so the
/// measured work is not optimized away.
#[verifier::external_body]
fn black_box<T>(value: T)
{
    std::hint::black_box(value);
}

/// The sampled value of each counter that was built and read.
#[derive(Clone, Copy, Debug, PartialEq, Eq, Structural)]
pub struct CounterValues {
    pub cycles: Option<u64>,
    pub instructions: Option<u64>,
    pub branch_misses: Option<u64>,
    pub cache_misses: Option<u64>,
    pub cache_references: Option<u64>,
}

/// One benchmark's measurements: the sampled hardware counters, where the
/// machine could record them, and the wall time of a separate run.
#[derive(Clone, Copy, Debug, PartialEq, Eq, Structural)]
pub struct BenchmarkStats {
    pub cycles: Option<u64>,
    pub instructions: Option<u64>,
    pub branch_misses: Option<u64>,
    pub cache_misses: Option<u64>,
    pub cache_references: Option<u64>,
    pub wall_time_nanos: u64,
}

/// The statistics assembled from the given counter values and wall time.
pub open spec fn stats_of(values: CounterValues, wall_time_nanos: u64) -> BenchmarkStats {
    BenchmarkStats {
        cycles: values.cycles,
        instructions: values.instructions,
        branch_misses: values.branch_misses,
        cache_misses: values.cache_misses,
        cache_references: values.cache_references,
        wall_time_nanos,
    }
}

/// Puts one benchmark's result together: every sampled counter value is
/// carried over unchanged, beside the measured wall time.
pub fn assemble_stats(values: CounterValues, wall_time_nanos: u64) -> (r: BenchmarkStats)
    ensures
        r == stats_of(values, wall_time_nanos),
{
    BenchmarkStats {
        cycles: values.cycles,
        instructions: values.instructions,
        branch_misses: values.branch_misses,
        cache_misses: values.cache_misses,
        cache_references: values.cache_references,
        wall_time_nanos,
    }
}

/// Builds one counter per hardware event inside the group, keeping each;
/// whether all five were built, so that the group may be read.
fn prepare_counters(group: &mut CounterGroup) -> (all_built: bool)
    requires
        forall|k: HardwareKind| !(#[trigger] old(group).built_kind(k)),
    ensures
        final(group).ok() == (old(group).ok() && all_built),
        all_built == (final(group).built_kind(HardwareKind::Cycles) && final(group).built_kind(
            HardwareKind::Instructions,
        ) && final(group).built_kind(HardwareKind::BranchMisses) && final(group).built_kind(
            HardwareKind::CacheMisses,
        ) && final(group).built_kind(HardwareKind::CacheReferences)),
{
    let b_cycles = group.add_counter(HardwareKind::Cycles);
    let b_instructions = group.add_counter(HardwareKind::Instructions);
    let b_branch_misses = group.add_counter(HardwareKind::BranchMisses);
    let b_cache_misses = group.add_counter(HardwareKind::CacheMisses);
    let b_cache_references = group.add_counter(HardwareKind::CacheReferences);
    b_cycles && b_instructions && b_branch_misses && b_cache_misses && b_cache_references
}

/// Reads each built counter's value out of a group reading: an event whose
/// counter was built gets exactly the reading's value under that counter's
/// id, an event whose counter was never built stays absent.
fn read_values(counts: &perf_event::Counts, cg: &CounterGroup) -> (r: CounterValues)
    ensures
        r.cycles == spec_value(*counts, *cg, HardwareKind::Cycles),
        r.instructions == spec_value(*counts, *cg, HardwareKind::Instructions),
        r.branch_misses == spec_value(*counts, *cg, HardwareKind::BranchMisses),
        r.cache_misses == spec_value(*counts, *cg, HardwareKind::CacheMisses),
        r.cache_references == spec_value(*counts, *cg, HardwareKind::CacheReferences),
{
    CounterValues {
        cycles: match &cg.counters.cycles {
            Some(counter) => counts_get(counts, counter),
            None => None,
        },
        instructions: match &cg.counters.instructions {
            Some(counter) => counts_get(counts, counter),
            None => None,
        },
        branch_misses: match &cg.counters.branch_misses {
            Some(counter) => counts_get(counts, counter),
            None => None,
        },
        cache_misses: match &cg.counters.cache_misses {
            Some(counter) => counts_get(counts, counter),
            None => None,
        },
        cache_references: match &cg.counters.cache_references {
            Some(counter) => counts_get(counts, counter),
            None => None,
        },
    }
}

/// The value a reading gives for one hardware event: the reading's entry
/// under the built counter's id, absent when the counter was never built or
/// is no member of the reading.
pub open spec fn spec_value(
    counts: perf_event::Counts,
    cg: CounterGroup,
    kind: HardwareKind,
) -> Option<u64> {
    if cg.built_kind(kind) && counts_of(counts).contains_key(cg.id_of(kind)) {
        Some(counts_of(counts)[cg.id_of(kind)])
    } else {
        None
    }
}

/// Benchmarks a single function generated by `benchmark_constructor`. The
/// function is executed twice, once to gather the performance counters and a
/// second time to gather the wall-time measurement. The counters of a
/// successful result are all present — one reading supplied every value — or
/// all absent, on a machine that could not record every event.
pub fn benchmark_function<F: Fn() -> Bench, R, Bench: FnOnce() -> R>(
    benchmark_constructor: &F,
) -> (r: Result<BenchmarkStats, String>)
    requires
        call_requires(*benchmark_constructor, ()),
        forall|bench: Bench|
            call_ensures(*benchmark_constructor, (), bench) ==> call_requires(bench, ()),
    ensures
        r matches Ok(stats) ==> {
            &&& stats.cycles is Some <==> stats.instructions is Some
            &&& stats.cycles is Some <==> stats.branch_misses is Some
            &&& stats.cycles is Some <==> stats.cache_misses is Some
            &&& stats.cycles is Some <==> stats.cache_references is Some
        },
{
    let mut group = match create_group() {
        Ok(group) => group,
        Err(error) => {
            return Err(error);
        },
    };
    let all_built = prepare_counters(&mut group);

    // Measure the performance counters.
    let func = (benchmark_constructor)();

    // Do not act on the return value yet, to keep the branch out of the
    // measurement.
    let enable_ret = group_enable(&mut group.group);
    let output = func();
    if let Err(error) = group_disable(&mut group.group) {
        return Err(error);
    }

    // Keep the result observably used.
    black_box(output);

    if let Err(error) = enable_ret {
        return Err(error);
    }

    let values = if all_built {
        let ghost before = group;
        let counts = match group_read(&mut group) {
            Ok(counts) => counts,
            Err(error) => {
                return Err(error);
            },
        };
        proof {
            assert(before.built_kind(HardwareKind::Cycles));
            assert(before.built_kind(HardwareKind::Instructions));
            assert(before.built_kind(HardwareKind::BranchMisses));
            assert(before.built_kind(HardwareKind::CacheMisses));
            assert(before.built_kind(HardwareKind::CacheReferences));
        }
        read_values(&counts, &group)
    } else {
        CounterValues {
            cycles: None,
            instructions: None,
            branch_misses: None,
            cache_misses: None,
            cache_references: None,
        }
    };

    // Measure the wall time.
    let func = (benchmark_constructor)();
    let start = instant_now();
    let output = func();
    let wall_time_nanos = elapsed_nanos(&start);
    black_box(output);

    Ok(assemble_stats(values, wall_time_nanos))
}

} // verus!
