use gpui_ios::{IosDispatcher, Priority, QueuePriority};

#[test]
fn priorities_map_to_global_queues() {
    let d = IosDispatcher::new();
    assert_eq!(d.global_queue_priority(Priority::High), QueuePriority::High);
    assert_eq!(d.global_queue_priority(Priority::Medium), QueuePriority::Default);
    assert_eq!(d.global_queue_priority(Priority::Low), QueuePriority::Low);
}

#[test]
fn realtime_audio_does_not_use_a_global_queue() {
    let d = IosDispatcher::new();
    assert!(!d.uses_global_queue(Priority::RealtimeAudio));
    assert!(d.uses_global_queue(Priority::High));
    assert!(d.uses_global_queue(Priority::Medium));
    assert!(d.uses_global_queue(Priority::Low));
}

#[test]
fn delayed_dispatch_goes_to_high_queue_with_whole_nanoseconds() {
    let d = IosDispatcher::new();
    let r = d.delayed_dispatch(1, 500);
    assert_eq!(r.queue, QueuePriority::High);
    assert_eq!(r.offset_nanos, 1_000_000_500);
    let z = d.delayed_dispatch(0, 0);
    assert_eq!(z.offset_nanos, 0);
}

#[test]
fn delayed_dispatch_matches_duration_as_nanos() {
    let d = IosDispatcher::new();
    let duration = std::time::Duration::from_micros(16_667);
    let r = d.delayed_dispatch(duration.as_secs(), duration.subsec_nanos());
    assert_eq!(r.offset_nanos, duration.as_nanos() as i64);
}

#[test]
fn delayed_dispatch_wraps_beyond_i64() {
    let d = IosDispatcher::new();
    let r = d.delayed_dispatch(u64::MAX, 999_999_999);
    let total = (u64::MAX as u128) * 1_000_000_000 + 999_999_999;
    assert_eq!(r.offset_nanos, total as i64);
}
