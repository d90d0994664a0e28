use vstd::prelude::*;

verus! {

/// How urgently a task should run.
#[derive(Debug, Clone, Copy, PartialEq, Eq, Structural)]
pub enum Priority {
    RealtimeAudio,
    High,
    Medium,
    Low,
}

/// Grand Central Dispatch's global queue priorities that the dispatcher uses.
#[derive(Debug, Clone, Copy, PartialEq, Eq, Structural)]
pub enum QueuePriority {
    High,
    Default,
    Low,
}

/// Where a delayed task is queued and how far in the future it runs.
#[derive(Debug, Clone, Copy, PartialEq, Eq, Structural)]
pub struct DelayedDispatch {
    /// The global queue the task goes to.
    pub queue: QueuePriority,
    /// The offset from now, in nanoseconds, handed to the dispatch clock.
    pub offset_nanos: i64,
}

/// The global queue for each priority that runs on a dispatch queue.
pub open spec fn spec_queue_priority(priority: Priority) -> QueuePriority
    recommends
        priority != Priority::RealtimeAudio,
{
    match priority {
        Priority::High => QueuePriority::High,
        Priority::Medium => QueuePriority::Default,
        _ => QueuePriority::Low,
    }
}

/// The whole number of nanoseconds in a duration of `secs` seconds and
/// `subsec_nanos` nanoseconds.
pub open spec fn spec_duration_nanos(secs: u64, subsec_nanos: u32) -> int {
    secs * 1_000_000_000 + subsec_nanos
}

/// The task dispatcher backed by Grand Central Dispatch.
#[derive(Debug)]
pub struct IosDispatcher;

impl IosDispatcher {
    pub fn new() -> (d: Self)
        ensures
            d == IosDispatcher,
    {
        IosDispatcher
    }

    /// Whether a task of this priority goes to a dispatch queue; realtime audio
    /// work gets a thread of its own instead.
    pub fn uses_global_queue(&self, priority: Priority) -> (r: bool)
        ensures
            r <==> priority != Priority::RealtimeAudio,
    {
        match priority {
            Priority::RealtimeAudio => false,
            _ => true,
        }
    }

    /// The global queue that a task of `priority` is dispatched to.
    pub fn global_queue_priority(&self, priority: Priority) -> (q: QueuePriority)
        requires
            priority != Priority::RealtimeAudio,
        ensures
            q == spec_queue_priority(priority),
    {
        match priority {
            Priority::High => QueuePriority::High,
            Priority::Medium => QueuePriority::Default,
            _ => QueuePriority::Low,
        }
    }

    /// Where and when a task delayed by `secs` seconds and `subsec_nanos`
    /// nanoseconds runs: on the high-priority queue, at the duration's whole
    /// nanoseconds converted to `i64` (a conversion that wraps).
    pub fn delayed_dispatch(&self, secs: u64, subsec_nanos: u32) -> (r: DelayedDispatch)
        requires
            subsec_nanos < 1_000_000_000,
        ensures
            r.queue == QueuePriority::High,
            r.offset_nanos == spec_duration_nanos(secs, subsec_nanos) as i64,
    {
        assert(secs * 1_000_000_000 <= 0xffff_ffff_ffff_ffffu128 * 1_000_000_000) by (nonlinear_arith)
            requires
                secs <= 0xffff_ffff_ffff_ffffu64,
        ;
        let total: u128 = (secs as u128) * 1_000_000_000 + (subsec_nanos as u128);
        DelayedDispatch { queue: QueuePriority::High, offset_nanos: total as i64 }
    }
}

/// A delay that fits in `i64` nanoseconds is handed to the dispatch clock
/// unchanged.
pub proof fn lemma_short_delay_exact(secs: u64, subsec_nanos: u32)
    requires
        subsec_nanos < 1_000_000_000,
        spec_duration_nanos(secs, subsec_nanos) <= i64::MAX,
    ensures
        spec_duration_nanos(secs, subsec_nanos) as i64 == spec_duration_nanos(secs, subsec_nanos),
{
}

/// Distinct task priorities that use a dispatch queue go to distinct global
/// queues.
pub proof fn lemma_queue_priority_injective(a: Priority, b: Priority)
    requires
        a != Priority::RealtimeAudio,
        b != Priority::RealtimeAudio,
        spec_queue_priority(a) == spec_queue_priority(b),
    ensures
        a == b,
{
}

} // verus!
