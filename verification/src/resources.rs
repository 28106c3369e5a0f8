//! Resource accounting for wallpapers and widgets.
//!
//! A [`ResourceManager`] tracks one aggregate measurement against fixed
//! limits, plus one measurement per registered id. Its core invariant is that
//! the stored aggregate is always exactly the sum of the currently registered
//! per-id usages: a rejected call mutates nothing, so the aggregate can never
//! drift through partial mutation.

use vstd::prelude::*;

use crate::text::str_eq;

verus! {

/// A point-in-time resource measurement, either aggregate or per id.
///
/// `cpu_usage` is a CPU percentage in whole percentage points (a multi-core
/// process may exceed 100).
#[derive(Debug, Clone, Copy, PartialEq, Eq, Structural)]
pub struct ResourceUsage {
    /// Memory usage in bytes.
    pub memory_used: u64,
    /// CPU usage percentage.
    pub cpu_usage: u64,
    /// GPU memory usage in bytes.
    pub gpu_memory_used: u64,
    /// Number of active processes.
    pub active_processes: u32,
}

/// Resource limits, immutable for the lifetime of a manager.
#[derive(Debug, Clone, Copy, PartialEq, Eq, Structural)]
pub struct ResourceLimits {
    /// Maximum memory usage in bytes.
    pub max_memory: u64,
    /// Maximum CPU usage percentage.
    pub max_cpu: u64,
    /// Maximum GPU memory usage in bytes.
    pub max_gpu_memory: u64,
    /// Maximum number of registered resources.
    pub max_processes: u32,
}

impl Default for ResourceLimits {
    /// The stock limits: 512 MB of memory, 80% CPU, 256 MB of GPU memory,
    /// ten registered resources.
    fn default() -> (r: Self)
        ensures
            r.max_memory == 1024u64 * 1024 * 512,
            r.max_cpu == 80,
            r.max_gpu_memory == 1024u64 * 1024 * 256,
            r.max_processes == 10,
    {
        ResourceLimits {
            max_memory: 1024 * 1024 * 512,
            max_cpu: 80,
            max_gpu_memory: 1024 * 1024 * 256,
            max_processes: 10,
        }
    }
}

/// Addition on `u64` values that stops at the top of the range.
pub open spec fn sat_add_u64(a: int, b: int) -> int {
    if a + b > u64::MAX {
        u64::MAX as int
    } else {
        a + b
    }
}

/// The total memory of a registration sequence.
pub open spec fn spec_sum_mem(s: Seq<(String, ResourceUsage)>) -> int
    decreases s.len(),
{
    if s.len() == 0 {
        0
    } else {
        spec_sum_mem(s.drop_last()) + s.last().1.memory_used
    }
}

/// The total GPU memory of a registration sequence.
pub open spec fn spec_sum_gpu(s: Seq<(String, ResourceUsage)>) -> int
    decreases s.len(),
{
    if s.len() == 0 {
        0
    } else {
        spec_sum_gpu(s.drop_last()) + s.last().1.gpu_memory_used
    }
}

/// The total CPU percentage of a registration sequence, saturating at the
/// top of the `u64` range.
pub open spec fn spec_sum_cpu(s: Seq<(String, ResourceUsage)>) -> int
    decreases s.len(),
{
    if s.len() == 0 {
        0
    } else {
        sat_add_u64(spec_sum_cpu(s.drop_last()), s.last().1.cpu_usage as int)
    }
}

/// Whether all ids in a registration sequence are distinct.
pub open spec fn ids_distinct(s: Seq<(String, ResourceUsage)>) -> bool {
    forall|i: int, j: int| 0 <= i < j < s.len() ==> s[i].0@ != s[j].0@
}

/// Whether some registration carries the given id.
pub open spec fn spec_contains_id(s: Seq<(String, ResourceUsage)>, id: Seq<char>) -> bool {
    exists|i: int| 0 <= i < s.len() && s[i].0@ == id
}

/// The index of the registration carrying the given id.
pub open spec fn spec_index_of(s: Seq<(String, ResourceUsage)>, id: Seq<char>) -> int {
    choose|i: int| 0 <= i < s.len() && s[i].0@ == id
}

/// The usage recorded under the given id.
pub open spec fn spec_usage_of(s: Seq<(String, ResourceUsage)>, id: Seq<char>) -> ResourceUsage {
    s[spec_index_of(s, id)].1
}

/// With distinct ids, the index of an id is the only index carrying it.
pub proof fn lemma_index_of_unique(s: Seq<(String, ResourceUsage)>, id: Seq<char>, i: int)
    requires
        ids_distinct(s),
        0 <= i < s.len(),
        s[i].0@ == id,
    ensures
        spec_contains_id(s, id),
        spec_index_of(s, id) == i,
{
    assert(spec_contains_id(s, id));
    let j = spec_index_of(s, id);
    if j != i {
        if j < i {
            assert(s[j].0@ != s[i].0@);
        } else {
            assert(s[i].0@ != s[j].0@);
        }
    }
}

/// The totals of a registration sequence are nonnegative.
pub proof fn lemma_sums_nonneg(s: Seq<(String, ResourceUsage)>)
    ensures
        spec_sum_mem(s) >= 0,
        spec_sum_gpu(s) >= 0,
        spec_sum_cpu(s) >= 0,
    decreases s.len(),
{
    if s.len() > 0 {
        lemma_sums_nonneg(s.drop_last());
    }
}

/// Every registration contributes no more than the whole total.
pub proof fn lemma_entry_le_sums(s: Seq<(String, ResourceUsage)>, i: int)
    requires
        0 <= i < s.len(),
    ensures
        s[i].1.memory_used <= spec_sum_mem(s),
        s[i].1.gpu_memory_used <= spec_sum_gpu(s),
    decreases s.len(),
{
    lemma_sums_nonneg(s.drop_last());
    if i < s.len() - 1 {
        lemma_entry_le_sums(s.drop_last(), i);
    }
}

/// Appending a registration adds its usage to each total.
pub proof fn lemma_sums_push(s: Seq<(String, ResourceUsage)>, e: (String, ResourceUsage))
    ensures
        spec_sum_mem(s.push(e)) == spec_sum_mem(s) + e.1.memory_used,
        spec_sum_gpu(s.push(e)) == spec_sum_gpu(s) + e.1.gpu_memory_used,
        spec_sum_cpu(s.push(e)) == sat_add_u64(spec_sum_cpu(s), e.1.cpu_usage as int),
{
    assert(s.push(e).drop_last() =~= s);
    assert(s.push(e).last() == e);
}

/// Removing a registration subtracts its usage from the memory totals.
pub proof fn lemma_sums_remove(s: Seq<(String, ResourceUsage)>, i: int)
    requires
        0 <= i < s.len(),
    ensures
        spec_sum_mem(s.remove(i)) == spec_sum_mem(s) - s[i].1.memory_used,
        spec_sum_gpu(s.remove(i)) == spec_sum_gpu(s) - s[i].1.gpu_memory_used,
    decreases s.len(),
{
    if i == s.len() - 1 {
        assert(s.remove(i) =~= s.drop_last());
    } else {
        assert(s.remove(i).drop_last() =~= s.drop_last().remove(i));
        assert(s.remove(i).last() == s.last());
        lemma_sums_remove(s.drop_last(), i);
    }
}

/// Replacing a registration shifts the memory totals by the difference.
pub proof fn lemma_sums_update(
    s: Seq<(String, ResourceUsage)>,
    i: int,
    e: (String, ResourceUsage),
)
    requires
        0 <= i < s.len(),
    ensures
        spec_sum_mem(s.update(i, e)) == spec_sum_mem(s) - s[i].1.memory_used + e.1.memory_used,
        spec_sum_gpu(s.update(i, e)) == spec_sum_gpu(s) - s[i].1.gpu_memory_used
            + e.1.gpu_memory_used,
    decreases s.len(),
{
    if i == s.len() - 1 {
        assert(s.update(i, e).drop_last() =~= s.drop_last());
        assert(s.update(i, e).last() == e);
    } else {
        assert(s.update(i, e).drop_last() =~= s.drop_last().update(i, e));
        assert(s.update(i, e).last() == s.last());
        lemma_sums_update(s.drop_last(), i, e);
    }
}

/// Resource manager for tracking and limiting resource usage.
pub struct ResourceManager {
    /// Resource limits.
    limits: ResourceLimits,
    /// Registered resources, in registration order.
    active: Vec<(String, ResourceUsage)>,
    /// Aggregate memory, kept equal to the sum over `active`.
    agg_memory: u64,
    /// Aggregate GPU memory, kept equal to the sum over `active`.
    agg_gpu_memory: u64,
    /// Number of registered resources.
    agg_processes: u32,
    /// Total memory ever accepted by `register_resource`.
    total_allocated: u64,
    /// Total memory ever released by `unregister_resource`.
    total_freed: u64,
}

impl ResourceManager {
    /// The well-formedness invariant: ids are distinct, the aggregate is
    /// exactly the sum of the registrations, and the aggregate respects the
    /// limits. (The CPU total is not stored: it is recomputed on demand, so a
    /// saturated reading can never skew later totals.)
    pub closed spec fn wf(&self) -> bool {
        &&& ids_distinct(self.active@)
        &&& self.agg_memory == spec_sum_mem(self.active@)
        &&& self.agg_gpu_memory == spec_sum_gpu(self.active@)
        &&& self.agg_processes == self.active@.len()
        &&& self.agg_memory <= self.limits.max_memory
        &&& self.agg_gpu_memory <= self.limits.max_gpu_memory
        &&& self.agg_processes <= self.limits.max_processes
    }

    /// The registrations currently held, in registration order.
    pub closed spec fn registrations(&self) -> Seq<(String, ResourceUsage)> {
        self.active@
    }

    /// The limits this manager was built with.
    pub closed spec fn spec_limits(&self) -> ResourceLimits {
        self.limits
    }

    /// The aggregate usage implied by the current registrations.
    pub open spec fn spec_aggregate(&self) -> ResourceUsage {
        ResourceUsage {
            memory_used: spec_sum_mem(self.registrations()) as u64,
            cpu_usage: spec_sum_cpu(self.registrations()) as u64,
            gpu_memory_used: spec_sum_gpu(self.registrations()) as u64,
            active_processes: self.registrations().len() as u32,
        }
    }

    /// Create a new resource manager with nothing registered.
    pub fn new(limits: ResourceLimits) -> (r: Self)
        ensures
            r.wf(),
            r.registrations().len() == 0,
            r.spec_limits() == limits,
            r.spec_allocation_stats() == (0u64, 0u64),
    {
        ResourceManager {
            limits,
            active: Vec::new(),
            agg_memory: 0,
            agg_gpu_memory: 0,
            agg_processes: 0,
            total_allocated: 0,
            total_freed: 0,
        }
    }

    /// The audit counters: memory ever accepted, memory ever released.
    pub closed spec fn spec_allocation_stats(&self) -> (u64, u64) {
        (self.total_allocated, self.total_freed)
    }

    /// Find the position of a registered id.
    fn find_index(&self, id: &str) -> (r: Option<usize>)
        ensures
            match r {
                Some(i) => i < self.active@.len() && self.active@[i as int].0@ == id@,
                None => !spec_contains_id(self.active@, id@),
            },
    {
        let n = self.active.len();
        let mut i: usize = 0;
        while i < n
            invariant
                i <= n,
                n == self.active@.len(),
                forall|j: int| 0 <= j < i ==> self.active@[j].0@ != id@,
            decreases n - i,
        {
            if str_eq(self.active[i].0.as_str(), id) {
                return Some(i);
            }
            i = i + 1;
        }
        None
    }

    /// Register a new resource.
    ///
    /// The call is rejected, with nothing mutated, exactly when the id is
    /// already registered, the process cap is reached, or the aggregate plus
    /// the new usage would exceed the memory or GPU memory limit.
    pub fn register_resource(&mut self, id: String, usage: ResourceUsage) -> (r: Result<
        (),
        String,
    >)
        requires
            old(self).wf(),
        ensures
            final(self).wf(),
            final(self).spec_limits() == old(self).spec_limits(),
            r is Ok <==> {
                &&& !spec_contains_id(old(self).registrations(), id@)
                &&& old(self).registrations().len() < old(self).spec_limits().max_processes
                &&& spec_sum_mem(old(self).registrations()) + usage.memory_used <= old(
                    self,
                ).spec_limits().max_memory
                &&& spec_sum_gpu(old(self).registrations()) + usage.gpu_memory_used <= old(
                    self,
                ).spec_limits().max_gpu_memory
            },
            r is Ok ==> {
                &&& final(self).registrations() == old(self).registrations().push((id, usage))
                &&& final(self).spec_allocation_stats().0 == sat_add_u64(
                    old(self).spec_allocation_stats().0 as int,
                    usage.memory_used as int,
                )
                &&& final(self).spec_allocation_stats().1 == old(self).spec_allocation_stats().1
            },
            r is Err ==> *final(self) == *old(self),
            match r {
                Ok(()) => true,
                Err(e) => e@ == spec_register_error(
                    old(self).registrations(),
                    old(self).spec_limits(),
                    id@,
                    usage,
                ),
            },
    {
        if self.agg_processes >= self.limits.max_processes {
            return Err("Maximum number of active processes reached".to_owned());
        }
        if usage.memory_used as u128 + self.agg_memory as u128 > self.limits.max_memory as u128 {
            return Err("Would exceed maximum memory limit".to_owned());
        }
        if usage.gpu_memory_used as u128 + self.agg_gpu_memory as u128
            > self.limits.max_gpu_memory as u128 {
            return Err("Would exceed maximum GPU memory limit".to_owned());
        }
        if self.find_index(id.as_str()).is_some() {
            return Err("Resource already registered".to_owned());
        }
        proof {
            lemma_sums_push(self.active@, (id, usage));
            assert forall|i: int, j: int|
                0 <= i < j < self.active@.push((id, usage)).len() implies self.active@.push(
                (id, usage),
            )[i].0@ != self.active@.push((id, usage))[j].0@ by {
                if j == self.active@.len() {
                    assert(self.active@[i].0@ != id@);
                }
            }
        }
        self.agg_memory = self.agg_memory + usage.memory_used;
        self.agg_gpu_memory = self.agg_gpu_memory + usage.gpu_memory_used;
        self.agg_processes = self.agg_processes + 1;
        self.total_allocated = if usage.memory_used > u64::MAX - self.total_allocated {
            u64::MAX
        } else {
            self.total_allocated + usage.memory_used
        };
        self.active.push((id, usage));
        Ok(())
    }

    /// Update the usage recorded under an id.
    ///
    /// Deltas are taken against the previously stored usage; a growing delta
    /// is re-validated against the limits and rejected, with nothing mutated,
    /// when it would exceed them. A shrinking delta always applies; under the
    /// aggregate-equals-sum invariant it can never underflow.
    pub fn update_resource(&mut self, id: &str, new_usage: ResourceUsage) -> (r: Result<
        (),
        String,
    >)
        requires
            old(self).wf(),
        ensures
            final(self).wf(),
            final(self).spec_limits() == old(self).spec_limits(),
            final(self).spec_allocation_stats() == old(self).spec_allocation_stats(),
            r is Ok <==> {
                &&& spec_contains_id(old(self).registrations(), id@)
                &&& spec_sum_mem(old(self).registrations()) - spec_usage_of(
                    old(self).registrations(),
                    id@,
                ).memory_used + new_usage.memory_used <= old(self).spec_limits().max_memory
                &&& spec_sum_gpu(old(self).registrations()) - spec_usage_of(
                    old(self).registrations(),
                    id@,
                ).gpu_memory_used + new_usage.gpu_memory_used <= old(
                    self,
                ).spec_limits().max_gpu_memory
            },
            r is Ok ==> final(self).registrations() == old(self).registrations().update(
                spec_index_of(old(self).registrations(), id@),
                (old(self).registrations()[spec_index_of(old(self).registrations(), id@)].0,
                new_usage),
            ),
            r is Err ==> *final(self) == *old(self),
            match r {
                Ok(()) => true,
                Err(e) => e@ == spec_update_error(
                    old(self).registrations(),
                    old(self).spec_limits(),
                    id@,
                    new_usage,
                ),
            },
    {
        let found = self.find_index(id);
        match found {
            None => Err("Resource not found".to_owned()),
            Some(i) => {
                proof {
                    lemma_index_of_unique(self.active@, id@, i as int);
                    lemma_entry_le_sums(self.active@, i as int);
                }
                let old_usage = self.active[i].1;
                let reduced_mem = self.agg_memory - old_usage.memory_used;
                let reduced_gpu = self.agg_gpu_memory - old_usage.gpu_memory_used;
                if reduced_mem as u128 + new_usage.memory_used as u128
                    > self.limits.max_memory as u128 {
                    return Err("Would exceed maximum memory limit".to_owned());
                }
                if reduced_gpu as u128 + new_usage.gpu_memory_used as u128
                    > self.limits.max_gpu_memory as u128 {
                    return Err("Would exceed maximum GPU memory limit".to_owned());
                }
                let entry = self.active.remove(i);
                self.active.insert(i, (entry.0, new_usage));
                proof {
                    assert(self.active@ =~= old(self).active@.update(
                        i as int,
                        (old(self).active@[i as int].0, new_usage),
                    ));
                    lemma_sums_update(
                        old(self).active@,
                        i as int,
                        (old(self).active@[i as int].0, new_usage),
                    );
                    assert forall|a: int, b: int| 0 <= a < b < self.active@.len() implies self
                        .active@[a].0@ != self.active@[b].0@ by {
                        assert(self.active@[a].0@ == old(self).active@[a].0@);
                        assert(self.active@[b].0@ == old(self).active@[b].0@);
                    }
                }
                self.agg_memory = reduced_mem + new_usage.memory_used;
                self.agg_gpu_memory = reduced_gpu + new_usage.gpu_memory_used;
                Ok(())
            },
        }
    }

    /// Unregister a resource, subtracting its last recorded usage from the
    /// aggregate and adding its memory to the freed counter.
    pub fn unregister_resource(&mut self, id: &str) -> (r: Result<(), String>)
        requires
            old(self).wf(),
        ensures
            final(self).wf(),
            final(self).spec_limits() == old(self).spec_limits(),
            r is Ok <==> spec_contains_id(old(self).registrations(), id@),
            r is Ok ==> {
                &&& final(self).registrations() == old(self).registrations().remove(
                    spec_index_of(old(self).registrations(), id@),
                )
                &&& final(self).spec_allocation_stats().0 == old(self).spec_allocation_stats().0
                &&& final(self).spec_allocation_stats().1 == sat_add_u64(
                    old(self).spec_allocation_stats().1 as int,
                    spec_usage_of(old(self).registrations(), id@).memory_used as int,
                )
            },
            r is Err ==> *final(self) == *old(self) && (match r {
                Ok(()) => true,
                Err(e) => e@ == "Resource not found"@,
            }),
    {
        let found = self.find_index(id);
        match found {
            None => Err("Resource not found".to_owned()),
            Some(i) => {
                proof {
                    lemma_index_of_unique(self.active@, id@, i as int);
                    lemma_entry_le_sums(self.active@, i as int);
                    lemma_sums_remove(self.active@, i as int);
                    let s = self.active@;
                    let t = s.remove(i as int);
                    s.remove_ensures(i as int);
                    assert forall|a: int, b: int| 0 <= a < b < t.len() implies t[a].0@
                        != t[b].0@ by {
                        let oa = if a < i { a } else { a + 1 };
                        let ob = if b < i { b } else { b + 1 };
                        assert(t[a] == s[oa]);
                        assert(t[b] == s[ob]);
                    }
                }
                let entry = self.active.remove(i);
                self.agg_memory = self.agg_memory - entry.1.memory_used;
                self.agg_gpu_memory = self.agg_gpu_memory - entry.1.gpu_memory_used;
                self.agg_processes = self.agg_processes - 1;
                self.total_freed = if entry.1.memory_used > u64::MAX - self.total_freed {
                    u64::MAX
                } else {
                    self.total_freed + entry.1.memory_used
                };
                Ok(())
            },
        }
    }

    /// The current aggregate usage: the sums of the registered usages (the
    /// CPU total saturating at the top of the `u64` range).
    pub fn get_usage(&self) -> (r: ResourceUsage)
        requires
            self.wf(),
        ensures
            r == self.spec_aggregate(),
    {
        let mut cpu_total: u64 = 0;
        let n = self.active.len();
        let mut i: usize = 0;
        proof {
            assert(self.active@.take(0) =~= Seq::<(String, ResourceUsage)>::empty());
        }
        while i < n
            invariant
                i <= n,
                n == self.active@.len(),
                cpu_total == spec_sum_cpu(self.active@.take(i as int)),
            decreases n - i,
        {
            let cpu = self.active[i].1.cpu_usage;
            proof {
                assert(self.active@.take(i + 1).drop_last() =~= self.active@.take(i as int));
                assert(self.active@.take(i + 1).last() == self.active@[i as int]);
                lemma_sums_nonneg(self.active@.take(i as int));
            }
            cpu_total = if cpu > u64::MAX - cpu_total {
                u64::MAX
            } else {
                cpu_total + cpu
            };
            i = i + 1;
        }
        proof {
            assert(self.active@.take(n as int) =~= self.active@);
            lemma_sums_nonneg(self.active@);
        }
        ResourceUsage {
            memory_used: self.agg_memory,
            cpu_usage: cpu_total,
            gpu_memory_used: self.agg_gpu_memory,
            active_processes: self.agg_processes,
        }
    }

    /// The usage recorded under a specific id, if registered.
    pub fn get_resource_usage(&self, id: &str) -> (r: Option<ResourceUsage>)
        requires
            self.wf(),
        ensures
            match r {
                Some(u) => spec_contains_id(self.registrations(), id@) && u == spec_usage_of(
                    self.registrations(),
                    id@,
                ),
                None => !spec_contains_id(self.registrations(), id@),
            },
    {
        match self.find_index(id) {
            None => None,
            Some(i) => {
                proof {
                    lemma_index_of_unique(self.active@, id@, i as int);
                }
                Some(self.active[i].1)
            },
        }
    }

    /// Whether the aggregate usage is within every configured limit.
    pub fn is_within_limits(&self) -> (r: bool)
        requires
            self.wf(),
        ensures
            r == {
                let agg = self.spec_aggregate();
                &&& agg.memory_used <= self.spec_limits().max_memory
                &&& agg.gpu_memory_used <= self.spec_limits().max_gpu_memory
                &&& agg.cpu_usage <= self.spec_limits().max_cpu
                &&& agg.active_processes <= self.spec_limits().max_processes
            },
    {
        let usage = self.get_usage();
        usage.memory_used <= self.limits.max_memory && usage.gpu_memory_used
            <= self.limits.max_gpu_memory && usage.cpu_usage <= self.limits.max_cpu
            && usage.active_processes <= self.limits.max_processes
    }

    /// The utilization of a capacity, as a percentage capped at 100.
    /// A zero capacity counts as fully utilized.
    pub open spec fn spec_utilization_pct(used: int, cap: int) -> int {
        if cap == 0 {
            100
        } else if used * 100 / cap > 100 {
            100
        } else {
            used * 100 / cap
        }
    }

    /// The memory, GPU memory and CPU utilization percentages, each capped
    /// at 100.
    pub fn get_utilization(&self) -> (r: (u64, u64, u64))
        requires
            self.wf(),
        ensures
            r.0 == Self::spec_utilization_pct(
                self.spec_aggregate().memory_used as int,
                self.spec_limits().max_memory as int,
            ),
            r.1 == Self::spec_utilization_pct(
                self.spec_aggregate().gpu_memory_used as int,
                self.spec_limits().max_gpu_memory as int,
            ),
            r.2 == Self::spec_utilization_pct(
                self.spec_aggregate().cpu_usage as int,
                self.spec_limits().max_cpu as int,
            ),
    {
        let usage = self.get_usage();
        let mem = Self::utilization_pct(usage.memory_used, self.limits.max_memory);
        let gpu = Self::utilization_pct(usage.gpu_memory_used, self.limits.max_gpu_memory);
        let cpu = Self::utilization_pct(usage.cpu_usage, self.limits.max_cpu);
        (mem, gpu, cpu)
    }

    /// Compute one capped utilization percentage.
    fn utilization_pct(used: u64, cap: u64) -> (r: u64)
        ensures
            r == Self::spec_utilization_pct(used as int, cap as int),
    {
        if cap == 0 {
            return 100;
        }
        let pct = (used as u128 * 100) / (cap as u128);
        if pct > 100 {
            100
        } else {
            pct as u64
        }
    }

    /// The audit counters: total memory ever accepted and ever released.
    pub fn get_allocation_stats(&self) -> (r: (u64, u64))
        ensures
            r == self.spec_allocation_stats(),
    {
        (self.total_allocated, self.total_freed)
    }

    /// Count the registrations that a collection pass would inspect. No
    /// registration is removed: liveness checking is the supervisor's job.
    pub fn garbage_collect(&self) -> (r: usize)
        ensures
            r == 0,
    {
        0
    }
}

impl Default for ResourceManager {
    /// A manager with the stock limits and nothing registered.
    fn default() -> (r: Self)
        ensures
            r.wf(),
            r.registrations().len() == 0,
            r.spec_limits() == (ResourceLimits {
                max_memory: 536870912u64,
                max_cpu: 80u64,
                max_gpu_memory: 268435456u64,
                max_processes: 10u32,
            }),
    {
        ResourceManager::new(ResourceLimits::default())
    }
}

/// The diagnostic text `register_resource` reports for a rejected call.
pub open spec fn spec_register_error(
    s: Seq<(String, ResourceUsage)>,
    limits: ResourceLimits,
    id: Seq<char>,
    usage: ResourceUsage,
) -> Seq<char> {
    if s.len() >= limits.max_processes {
        "Maximum number of active processes reached"@
    } else if spec_sum_mem(s) + usage.memory_used > limits.max_memory {
        "Would exceed maximum memory limit"@
    } else if spec_sum_gpu(s) + usage.gpu_memory_used > limits.max_gpu_memory {
        "Would exceed maximum GPU memory limit"@
    } else {
        "Resource already registered"@
    }
}

/// The diagnostic text `update_resource` reports for a rejected call.
pub open spec fn spec_update_error(
    s: Seq<(String, ResourceUsage)>,
    limits: ResourceLimits,
    id: Seq<char>,
    usage: ResourceUsage,
) -> Seq<char> {
    if !spec_contains_id(s, id) {
        "Resource not found"@
    } else if spec_sum_mem(s) - spec_usage_of(s, id).memory_used + usage.memory_used
        > limits.max_memory {
        "Would exceed maximum memory limit"@
    } else {
        "Would exceed maximum GPU memory limit"@
    }
}

/// Law: a `register_resource` immediately followed by an
/// `unregister_resource` of the same id removes exactly the registration it
/// added and restores every aggregate total — memory, GPU memory, CPU and
/// process count — to its value before the pair.
pub proof fn lemma_register_unregister_round_trip(
    s: Seq<(String, ResourceUsage)>,
    id: String,
    usage: ResourceUsage,
)
    requires
        !spec_contains_id(s, id@),
    ensures
        spec_index_of(s.push((id, usage)), id@) == s.len(),
        s.push((id, usage)).remove(s.len() as int) == s,
        spec_sum_mem(s.push((id, usage)).remove(s.len() as int)) == spec_sum_mem(s),
        spec_sum_gpu(s.push((id, usage)).remove(s.len() as int)) == spec_sum_gpu(s),
        spec_sum_cpu(s.push((id, usage)).remove(s.len() as int)) == spec_sum_cpu(s),
        spec_usage_of(s.push((id, usage)), id@) == usage,
{
    let mid = s.push((id, usage));
    assert(mid[s.len() as int].0@ == id@);
    let j = spec_index_of(mid, id@);
    assert(spec_contains_id(mid, id@));
    if j != s.len() {
        assert(0 <= j < mid.len() && mid[j].0@ == id@);
        assert(mid[j] == s[j]);
        assert(spec_contains_id(s, id@));
    }
    assert(mid.remove(s.len() as int) =~= s);
}

} // verus!
